//! The `cp` command: addresses of the form `s3://bucket/key`, and which
//! transfer a pair of source and destination asks for.

use vstd::prelude::*;
use vstd::string::*;

use crate::text::{join3, join5};

verus! {

/// Refusal of an address that does not begin with the scheme.
pub const MISSING_SCHEME: &'static str = "S3 path must start with 's3://'";

/// Refusal of an address whose bucket or key is empty.
pub const EMPTY_PART: &'static str = "Bucket and key cannot be empty.";

/// Refusal of an address with no `/` after the bucket.
pub const MISSING_SEPARATOR: &'static str = "S3 path must include a bucket and a key separated by a '/'";

/// The characters `s3://`.
pub open spec fn scheme() -> Seq<char> {
    seq!['s', '3', ':', '/', '/']
}

/// The address of `key` in `bucket`: `s3://bucket/key`.
pub open spec fn s3_address(bucket: Seq<char>, key: Seq<char>) -> Seq<char> {
    scheme() + bucket + seq!['/'] + key
}

/// A bucket and a key that an address can name.
pub open spec fn nameable(bucket: Seq<char>, key: Seq<char>) -> bool {
    bucket.len() > 0 && key.len() > 0 && !bucket.contains('/')
}

/// `s` begins with `prefix`.
pub open spec fn begins_with(s: Seq<char>, prefix: Seq<char>) -> bool {
    prefix.len() <= s.len() && s.take(prefix.len() as int) == prefix
}

/// `i` is the position of the first `c` in `s`.
pub open spec fn is_first_index(s: Seq<char>, c: char, i: int) -> bool {
    &&& 0 <= i < s.len()
    &&& s[i] == c
    &&& forall|j: int| 0 <= j < i ==> s[j] != c
}

/// Splits `s` around its first `c`, as `str::split_once` does.
pub open spec fn split_once(s: Seq<char>, c: char) -> Option<(Seq<char>, Seq<char>)> {
    if s.contains(c) {
        let i: int = choose|i: int| is_first_index(s, c, i);
        Some((s.take(i), s.skip(i + 1)))
    } else {
        None
    }
}

/// What an address means: its bucket and key, or the reason it is refused.
pub open spec fn spec_parse_s3_path(path: Seq<char>) -> Result<(Seq<char>, Seq<char>), Seq<char>> {
    if !begins_with(path, scheme()) {
        Err(MISSING_SCHEME@)
    } else {
        match split_once(path.skip(5), '/') {
            None => Err(MISSING_SEPARATOR@),
            Some((bucket, key)) => if bucket.len() == 0 || key.len() == 0 {
                Err(EMPTY_PART@)
            } else {
                Ok((bucket, key))
            },
        }
    }
}

/// The views of a parse result.
pub open spec fn parsed_view(r: Result<(&str, &str), &str>) -> Result<(Seq<char>, Seq<char>), Seq<char>> {
    match r {
        Ok((b, k)) => Ok((b@, k@)),
        Err(e) => Err(e@),
    }
}

/// A first index, where there is one, is unique.
pub proof fn lemma_first_index_unique(s: Seq<char>, c: char, i: int, j: int)
    requires
        is_first_index(s, c, i),
        is_first_index(s, c, j),
    ensures
        i == j,
{
}

/// A character that occurs has a first occurrence.
pub proof fn lemma_first_index_exists(s: Seq<char>, c: char, k: int)
    requires
        0 <= k < s.len(),
        s[k] == c,
    ensures
        exists|i: int| is_first_index(s, c, i),
    decreases k,
{
    if exists|j: int| 0 <= j < k && s[j] == c {
        let j: int = choose|j: int| 0 <= j < k && s[j] == c;
        lemma_first_index_exists(s, c, j);
    } else {
        assert(is_first_index(s, c, k));
    }
}

/// Writing an address from a bucket and a key and parsing it gives back the
/// same bucket and key, for every non-empty bucket without `/` and every
/// non-empty key.
pub proof fn lemma_parse_of_written_address(bucket: Seq<char>, key: Seq<char>)
    requires
        nameable(bucket, key),
    ensures
        spec_parse_s3_path(s3_address(bucket, key)) == Ok::<(Seq<char>, Seq<char>), Seq<char>>((bucket, key)),
{
    let path = s3_address(bucket, key);
    assert(path.take(5) =~= scheme());
    let rest = path.skip(5);
    assert(rest =~= bucket + seq!['/'] + key);
    let i: int = bucket.len() as int;
    assert(rest[i] == '/');
    assert forall|j: int| 0 <= j < i implies rest[j] != '/' by {
        assert(rest[j] == bucket[j]);
    }
    assert(is_first_index(rest, '/', i));
    assert(rest.contains('/'));
    let w: int = choose|w: int| is_first_index(rest, '/', w);
    lemma_first_index_unique(rest, '/', i, w);
    assert(rest.take(i) =~= bucket);
    assert(rest.skip(i + 1) =~= key);
}

/// Every address that parses is the scheme, a non-empty bucket without `/`,
/// a `/` and a non-empty key.
pub proof fn lemma_parsed_address_is_written(path: Seq<char>)
    requires
        spec_parse_s3_path(path) is Ok,
    ensures
        ({
            let (bucket, key) = spec_parse_s3_path(path)->Ok_0;
            &&& nameable(bucket, key)
            &&& path == s3_address(bucket, key)
        }),
{
    let rest = path.skip(5);
    assert(rest.contains('/'));
    let k: int = choose|k: int| 0 <= k < rest.len() && rest[k] == '/';
    lemma_first_index_exists(rest, '/', k);
    let i: int = choose|i: int| is_first_index(rest, '/', i);
    let bucket = rest.take(i);
    let key = rest.skip(i + 1);
    assert(!bucket.contains('/')) by {
        if bucket.contains('/') {
            let j: int = choose|j: int| 0 <= j < bucket.len() && bucket[j] == '/';
            assert(rest[j] == '/');
        }
    }
    assert(rest =~= bucket + seq!['/'] + key);
    assert(path =~= path.take(5) + rest);
}

/// Whether `s` begins with `s3://`.
pub fn has_s3_scheme(s: &str) -> (b: bool)
    ensures
        b == begins_with(s@, scheme()),
{
    let n: usize = s.unicode_len();
    if n < 5 {
        return false;
    }
    let ok = s.get_char(0) == 's' && s.get_char(1) == '3' && s.get_char(2) == ':' && s.get_char(3)
        == '/' && s.get_char(4) == '/';
    proof {
        if ok {
            assert(s@.take(5) =~= scheme());
        } else {
            assert(s@.take(5) != scheme() ) by {
                if s@.take(5) == scheme() {
                    assert(s@.take(5)[0] == 's');
                    assert(s@.take(5)[1] == '3');
                    assert(s@.take(5)[2] == ':');
                    assert(s@.take(5)[3] == '/');
                    assert(s@.take(5)[4] == '/');
                }
            }
        }
    }
    ok
}

/// Splits an address `s3://bucket/key` into its bucket and its key; the
/// bucket ends at the first `/` after the scheme.
pub fn parse_s3_path(path: &str) -> (res: Result<(&str, &str), &'static str>)
    ensures
        parsed_view(res) == spec_parse_s3_path(path@),
{
    if !has_s3_scheme(path) {
        return Err(MISSING_SCHEME);
    }
    let n: usize = path.unicode_len();
    let rest = path.substring_char(5, n);
    let m: usize = rest.unicode_len();
    let mut i: usize = 0;
    let mut found = false;
    while i < m && !found
        invariant
            m == rest@.len(),
            i <= m,
            found ==> i < m && rest@[i as int] == '/',
            forall|j: int| 0 <= j < i ==> rest@[j] != '/',
        decreases 2 * (m - i) + (if found { 0int } else { 1int }),
    {
        if rest.get_char(i) == '/' {
            found = true;
        } else {
            i = i + 1;
        }
    }
    if !found {
        assert(!rest@.contains('/'));
        return Err(MISSING_SEPARATOR);
    }
    proof {
        assert(is_first_index(rest@, '/', i as int));
        let w: int = choose|w: int| is_first_index(rest@, '/', w);
        lemma_first_index_unique(rest@, '/', i as int, w);
    }
    let bucket = rest.substring_char(0, i);
    let key = rest.substring_char(i + 1, m);
    assert(rest@ == path@.skip(5));
    if bucket.is_empty() || key.is_empty() {
        Err(EMPTY_PART)
    } else {
        Ok((bucket, key))
    }
}

/// Refusal of a copy in which neither side is an S3 address.
pub const NO_S3_SIDE: &'static str = "Invalid arguments: at least one of source or destination must be an S3 path.";

/// A transfer that `cp` performs.
#[derive(Clone, Debug, PartialEq, Eq)]
pub enum Transfer<S> {
    /// From one S3 object to another.
    Copy { source_bucket: S, source_key: S, dest_bucket: S, dest_key: S },
    /// From a local file to an S3 object.
    Upload { local_path: S, dest_bucket: S, dest_key: S },
    /// From an S3 object to a local file.
    Download { source_bucket: S, source_key: S, local_path: S },
}

/// The character sequences of a transfer.
pub open spec fn transfer_view(t: Transfer<&str>) -> Transfer<Seq<char>> {
    match t {
        Transfer::Copy { source_bucket, source_key, dest_bucket, dest_key } => Transfer::Copy {
            source_bucket: source_bucket@,
            source_key: source_key@,
            dest_bucket: dest_bucket@,
            dest_key: dest_key@,
        },
        Transfer::Upload { local_path, dest_bucket, dest_key } => Transfer::Upload {
            local_path: local_path@,
            dest_bucket: dest_bucket@,
            dest_key: dest_key@,
        },
        Transfer::Download { source_bucket, source_key, local_path } => Transfer::Download {
            source_bucket: source_bucket@,
            source_key: source_key@,
            local_path: local_path@,
        },
    }
}

/// The character sequences of a planned transfer or of its refusal.
pub open spec fn planned_view(r: Result<Transfer<&str>, &str>) -> Result<Transfer<Seq<char>>, Seq<char>> {
    match r {
        Ok(t) => Ok(transfer_view(t)),
        Err(e) => Err(e@),
    }
}

/// Which transfer `cp source destination` performs: a side is on S3 when it
/// begins with `s3://`; an S3 side is parsed (the source first), and a copy
/// with no S3 side is refused.
pub open spec fn spec_plan_cp(source: Seq<char>, destination: Seq<char>) -> Result<Transfer<Seq<char>>, Seq<char>> {
    let source_is_s3 = begins_with(source, scheme());
    let destination_is_s3 = begins_with(destination, scheme());
    if source_is_s3 && destination_is_s3 {
        match spec_parse_s3_path(source) {
            Err(e) => Err(e),
            Ok((source_bucket, source_key)) => match spec_parse_s3_path(destination) {
                Err(e) => Err(e),
                Ok((dest_bucket, dest_key)) => Ok(Transfer::Copy { source_bucket, source_key, dest_bucket, dest_key }),
            },
        }
    } else if destination_is_s3 {
        match spec_parse_s3_path(destination) {
            Err(e) => Err(e),
            Ok((dest_bucket, dest_key)) => Ok(Transfer::Upload { local_path: source, dest_bucket, dest_key }),
        }
    } else if source_is_s3 {
        match spec_parse_s3_path(source) {
            Err(e) => Err(e),
            Ok((source_bucket, source_key)) => Ok(Transfer::Download { source_bucket, source_key, local_path: destination }),
        }
    } else {
        Err(NO_S3_SIDE@)
    }
}

/// Decides which transfer `cp source destination` performs, or why it is refused.
pub fn plan_cp<'a>(source: &'a str, destination: &'a str) -> (res: Result<Transfer<&'a str>, &'static str>)
    ensures
        planned_view(res) == spec_plan_cp(source@, destination@),
{
    let source_is_s3 = has_s3_scheme(source);
    let destination_is_s3 = has_s3_scheme(destination);
    if source_is_s3 && destination_is_s3 {
        let (source_bucket, source_key) = match parse_s3_path(source) {
            Ok(p) => p,
            Err(e) => return Err(e),
        };
        let (dest_bucket, dest_key) = match parse_s3_path(destination) {
            Ok(p) => p,
            Err(e) => return Err(e),
        };
        Ok(Transfer::Copy { source_bucket, source_key, dest_bucket, dest_key })
    } else if destination_is_s3 {
        let (dest_bucket, dest_key) = match parse_s3_path(destination) {
            Ok(p) => p,
            Err(e) => return Err(e),
        };
        Ok(Transfer::Upload { local_path: source, dest_bucket, dest_key })
    } else if source_is_s3 {
        let (source_bucket, source_key) = match parse_s3_path(source) {
            Ok(p) => p,
            Err(e) => return Err(e),
        };
        Ok(Transfer::Download { source_bucket, source_key, local_path: destination })
    } else {
        Err(NO_S3_SIDE)
    }
}

/// What `cp` reports before a transfer, for the source and destination as given.
pub open spec fn spec_announcement(t: Transfer<Seq<char>>, source: Seq<char>, destination: Seq<char>) -> Seq<char> {
    match t {
        Transfer::Copy { .. } => "Copying from '"@ + source + "' to '"@ + destination + "'"@,
        Transfer::Upload { .. } => "Uploading from local '"@ + source + "' to S3 '"@ + destination + "'..."@,
        Transfer::Download { .. } => "Downloading from S3 '"@ + source + "' to local '"@ + destination + "'..."@,
    }
}

/// What `cp` reports after a transfer succeeded.
pub open spec fn spec_completion(t: Transfer<Seq<char>>, source: Seq<char>, destination: Seq<char>) -> Seq<char> {
    match t {
        Transfer::Copy { .. } => "Successfully copied object from '"@ + source + "' to '"@ + destination + "'"@,
        Transfer::Upload { .. } => "Successfully uploaded local file '"@ + source + "' to S3 '"@ + destination + "'"@,
        Transfer::Download { .. } => "Successfully downloaded S3 '"@ + source + "' to local '"@ + destination + "'"@,
    }
}

/// `cp` needs an S3 side: it plans a transfer only when the source or the
/// destination begins with `s3://`, and refuses with `NO_S3_SIDE` when
/// neither does.
pub proof fn lemma_cp_needs_an_s3_side(source: Seq<char>, destination: Seq<char>)
    ensures
        spec_plan_cp(source, destination) is Ok ==> begins_with(source, scheme())
            || begins_with(destination, scheme()),
        !begins_with(source, scheme()) && !begins_with(destination, scheme()) ==> spec_plan_cp(
            source,
            destination,
        ) == Err::<Transfer<Seq<char>>, Seq<char>>(NO_S3_SIDE@),
{
}

/// When both sides begin with `s3://`, `cp` copies or refuses: it never
/// uploads or downloads. The source is checked first, and a copy is from
/// what the source parses to, to what the destination parses to.
pub proof fn lemma_two_s3_sides_copy_or_refuse(source: Seq<char>, destination: Seq<char>)
    requires
        begins_with(source, scheme()),
        begins_with(destination, scheme()),
    ensures
        spec_plan_cp(source, destination) is Ok ==> spec_plan_cp(source, destination) is Ok
            && spec_plan_cp(source, destination)->Ok_0 is Copy,
        spec_parse_s3_path(source) is Err ==> spec_plan_cp(source, destination) == Err::<
            Transfer<Seq<char>>,
            Seq<char>,
        >(spec_parse_s3_path(source)->Err_0),
        spec_parse_s3_path(source) is Ok && spec_parse_s3_path(destination) is Err
            ==> spec_plan_cp(source, destination) == Err::<Transfer<Seq<char>>, Seq<char>>(
            spec_parse_s3_path(destination)->Err_0,
        ),
        spec_parse_s3_path(source) is Ok && spec_parse_s3_path(destination) is Ok ==> spec_plan_cp(
            source,
            destination,
        ) == Ok::<Transfer<Seq<char>>, Seq<char>>(
            Transfer::Copy {
                source_bucket: spec_parse_s3_path(source)->Ok_0.0,
                source_key: spec_parse_s3_path(source)->Ok_0.1,
                dest_bucket: spec_parse_s3_path(destination)->Ok_0.0,
                dest_key: spec_parse_s3_path(destination)->Ok_0.1,
            },
        ),
{
}

/// An upload is only ever from a source that is not an S3 address, and a
/// download only ever to a destination that is not one; in both the S3 side
/// is what that side parses to.
pub proof fn lemma_transfers_keep_their_sides(source: Seq<char>, destination: Seq<char>)
    ensures
        spec_plan_cp(source, destination) matches Ok(Transfer::Upload { local_path, dest_bucket, dest_key })
            ==> {
            &&& !begins_with(source, scheme())
            &&& local_path == source
            &&& spec_parse_s3_path(destination) == Ok::<(Seq<char>, Seq<char>), Seq<char>>((dest_bucket, dest_key))
        },
        spec_plan_cp(source, destination) matches Ok(Transfer::Download { source_bucket, source_key, local_path })
            ==> {
            &&& !begins_with(destination, scheme())
            &&& local_path == destination
            &&& spec_parse_s3_path(source) == Ok::<(Seq<char>, Seq<char>), Seq<char>>((source_bucket, source_key))
        },
{
}

/// An address that parses begins with `s3://`.
pub proof fn lemma_address_begins_with_scheme(bucket: Seq<char>, key: Seq<char>)
    ensures
        begins_with(s3_address(bucket, key), scheme()),
{
    assert(s3_address(bucket, key).take(5) =~= scheme());
}

/// Between two written addresses, `cp` copies from the first bucket and key
/// to the second.
pub proof fn lemma_copy_between_addresses(source_bucket: Seq<char>, source_key: Seq<char>, dest_bucket: Seq<char>, dest_key: Seq<char>)
    requires
        nameable(source_bucket, source_key),
        nameable(dest_bucket, dest_key),
    ensures
        spec_plan_cp(s3_address(source_bucket, source_key), s3_address(dest_bucket, dest_key))
            == Ok::<Transfer<Seq<char>>, Seq<char>>(Transfer::Copy { source_bucket, source_key, dest_bucket, dest_key }),
{
    lemma_address_begins_with_scheme(source_bucket, source_key);
    lemma_address_begins_with_scheme(dest_bucket, dest_key);
    lemma_parse_of_written_address(source_bucket, source_key);
    lemma_parse_of_written_address(dest_bucket, dest_key);
}

/// From a local path to a written address, `cp` uploads the file to that
/// bucket and key.
pub proof fn lemma_upload_to_address(local_path: Seq<char>, dest_bucket: Seq<char>, dest_key: Seq<char>)
    requires
        !begins_with(local_path, scheme()),
        nameable(dest_bucket, dest_key),
    ensures
        spec_plan_cp(local_path, s3_address(dest_bucket, dest_key))
            == Ok::<Transfer<Seq<char>>, Seq<char>>(Transfer::Upload { local_path, dest_bucket, dest_key }),
{
    lemma_address_begins_with_scheme(dest_bucket, dest_key);
    lemma_parse_of_written_address(dest_bucket, dest_key);
}

/// From a written address to a local path, `cp` downloads that object to
/// the file.
pub proof fn lemma_download_from_address(source_bucket: Seq<char>, source_key: Seq<char>, local_path: Seq<char>)
    requires
        nameable(source_bucket, source_key),
        !begins_with(local_path, scheme()),
    ensures
        spec_plan_cp(s3_address(source_bucket, source_key), local_path)
            == Ok::<Transfer<Seq<char>>, Seq<char>>(Transfer::Download { source_bucket, source_key, local_path }),
{
    lemma_address_begins_with_scheme(source_bucket, source_key);
    lemma_parse_of_written_address(source_bucket, source_key);
}

/// The source of an S3 copy request: the bucket, `/`, and the key.
pub fn copy_source(bucket: &str, key: &str) -> (s: String)
    ensures
        s@ == bucket@ + "/"@ + key@,
{
    join3(bucket, "/", key)
}

impl<'a> Transfer<&'a str> {
    /// The line `cp` prints before this transfer.
    pub fn announcement(&self, source: &str, destination: &str) -> (line: String)
        ensures
            line@ == spec_announcement(transfer_view(*self), source@, destination@),
    {
        match self {
            Transfer::Copy { .. } => join5("Copying from '", source, "' to '", destination, "'"),
            Transfer::Upload { .. } => join5("Uploading from local '", source, "' to S3 '", destination, "'..."),
            Transfer::Download { .. } => join5("Downloading from S3 '", source, "' to local '", destination, "'..."),
        }
    }

    /// The line `cp` prints once this transfer has succeeded.
    pub fn completion(&self, source: &str, destination: &str) -> (line: String)
        ensures
            line@ == spec_completion(transfer_view(*self), source@, destination@),
    {
        match self {
            Transfer::Copy { .. } => join5("Successfully copied object from '", source, "' to '", destination, "'"),
            Transfer::Upload { .. } => join5("Successfully uploaded local file '", source, "' to S3 '", destination, "'"),
            Transfer::Download { .. } => join5("Successfully downloaded S3 '", source, "' to local '", destination, "'"),
        }
    }
}

} // verus!
