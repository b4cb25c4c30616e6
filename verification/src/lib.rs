//! Verified core of the S3 Wayfinder command-line tool: parsing of `s3://`
//! addresses, planning of transfers, the wording of reports, and the state
//! machine behind the interactive browser.

mod text;

pub mod commands;
pub mod tui;
