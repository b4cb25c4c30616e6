//! The commands of the command-line interface and the logic of each.

use vstd::prelude::*;

pub mod cp;
pub mod ls;
pub mod rm;

verus! {

/// The commands of the command-line interface.
/// - `ls [bucket]`: list the objects of a bucket, or all buckets when none is named.
/// - `cp <source> <destination>`: copy an object from S3 to S3, from a local file to S3, or from S3 to a local file.
/// - `rm <bucket> [object]`: remove an object, or a bucket when no object is named.
/// - `tui`: browse buckets and objects interactively.
pub enum Commands {
    /// List of objects or buckets from S3 storage.
    Ls {
        /// The bucket to list objects from; all buckets when absent.
        bucket: Option<String>,
    },
    /// Copy S3 to S3, local to S3, and S3 to local; S3 addresses read `s3://bucket/key`.
    Cp {
        /// The source S3 object URI or local file path.
        source: String,
        /// The destination S3 object URI or local file path.
        destination: String,
    },
    /// Remove a bucket or object from S3 storage.
    Rm {
        /// The bucket name.
        bucket: String,
        /// The object key, if an object is to be removed.
        s3_object: Option<String>,
    },
    /// Launch the interactive browser.
    Tui,
}

/// The command line: an optional command.
pub struct Cli {
    /// The command given, if any.
    pub commands: Option<Commands>,
}

} // verus!
