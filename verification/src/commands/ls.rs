//! The `ls` command: the names shown for buckets and objects, and the report
//! that lists them.

use vstd::prelude::*;
use vstd::string::*;

use crate::text::{join2, join3};

verus! {

/// The name shown for a bucket or object that has none.
pub const PLACEHOLDER: &'static str = "N/A";

/// The character sequences of a listing as S3 returns it: possibly no list
/// at all, and possibly entries without a name.
pub open spec fn raw_names_view(names: Option<Vec<Option<String>>>) -> Option<Seq<Option<Seq<char>>>> {
    match names {
        None => None,
        Some(v) => Some(v@.map_values(|o: Option<String>| match o {
            Some(s) => Some(s@),
            None => None,
        })),
    }
}

/// The character sequences of a list of strings.
pub open spec fn names_view(names: Seq<String>) -> Seq<Seq<char>> {
    names.map_values(|s: String| s@)
}

/// The name shown for one entry.
pub open spec fn shown_name(name: Option<Seq<char>>) -> Seq<char> {
    match name {
        Some(s) => s,
        None => PLACEHOLDER@,
    }
}

/// The names shown for a listing: none when there is no list, and the
/// placeholder for each entry without a name, in the listing's order.
pub open spec fn spec_names_or_placeholder(names: Option<Seq<Option<Seq<char>>>>) -> Seq<Seq<char>> {
    match names {
        None => Seq::empty(),
        Some(v) => v.map_values(|o: Option<Seq<char>>| shown_name(o)),
    }
}

/// The names to show for a listing of buckets or of objects.
pub fn names_or_placeholder(names: Option<Vec<Option<String>>>) -> (shown: Vec<String>)
    ensures
        names_view(shown@) == spec_names_or_placeholder(raw_names_view(names)),
{
    let mut shown: Vec<String> = Vec::new();
    match names {
        None => {},
        Some(v) => {
            let ghost raw = raw_names_view(Some(v))->Some_0;
            let n: usize = v.len();
            for i in 0..n
                invariant
                    n == v.len(),
                    raw == v@.map_values(|o: Option<String>| match o {
                        Some(s) => Some(s@),
                        None => None,
                    }),
                    shown.len() == i,
                    forall|j: int| 0 <= j < i ==> #[trigger] shown@[j]@ == shown_name(raw[j]),
            {
                let name = match &v[i] {
                    Some(s) => s.clone(),
                    None => String::from_str(PLACEHOLDER),
                };
                shown.push(name);
            }
            assert(names_view(shown@) =~= raw.map_values(|o: Option<Seq<char>>| shown_name(o)));
        },
    }
    assert(names is None ==> names_view(shown@) =~= Seq::<Seq<char>>::empty());
    shown
}

/// The line `ls` prints before it asks S3 for a listing.
pub open spec fn spec_listing_header(bucket: Option<Seq<char>>) -> Seq<char> {
    match bucket {
        Some(b) => "Listing objects in bucket: "@ + b,
        None => "Listing S3 buckets..."@,
    }
}

/// One entry of a printed listing.
pub open spec fn entry_line(name: Seq<char>) -> Seq<char> {
    "  - "@ + name
}

/// The lines `ls` prints for the names it got: a line saying that there
/// are none, or a heading followed by one line per name, in order.
pub open spec fn spec_listing_report(bucket: Option<Seq<char>>, names: Seq<Seq<char>>) -> Seq<Seq<char>> {
    match bucket {
        Some(b) => if names.len() == 0 {
            seq!["No objects found in bucket '"@ + b + "'."@]
        } else {
            seq!["Objects in '"@ + b + "':"@] + names.map_values(|n: Seq<char>| entry_line(n))
        },
        None => if names.len() == 0 {
            seq!["No S3 buckets found."@]
        } else {
            seq!["S3 Buckets:"@] + names.map_values(|n: Seq<char>| entry_line(n))
        },
    }
}

/// The character sequence of an optional string.
pub open spec fn opt_view(s: Option<String>) -> Option<Seq<char>> {
    match s {
        Some(s) => Some(s@),
        None => None,
    }
}

/// The line `ls` prints before it asks for the objects of `bucket`, or for
/// the buckets when no bucket is named.
pub fn listing_header(bucket: &Option<String>) -> (line: String)
    ensures
        line@ == spec_listing_header(opt_view(*bucket)),
{
    match bucket {
        Some(b) => join2("Listing objects in bucket: ", b.as_str()),
        None => String::from_str("Listing S3 buckets..."),
    }
}

/// The lines `ls` prints for the names it got.
pub fn listing_report(bucket: &Option<String>, names: &Vec<String>) -> (lines: Vec<String>)
    ensures
        names_view(lines@) == spec_listing_report(opt_view(*bucket), names_view(names@)),
{
    let mut lines: Vec<String> = Vec::new();
    let n: usize = names.len();
    if n == 0 {
        match bucket {
            Some(b) => lines.push(join3("No objects found in bucket '", b.as_str(), "'.")),
            None => lines.push(String::from_str("No S3 buckets found.")),
        }
        assert(names_view(lines@) =~= spec_listing_report(opt_view(*bucket), names_view(names@)));
        return lines;
    }
    match bucket {
        Some(b) => lines.push(join3("Objects in '", b.as_str(), "':")),
        None => lines.push(String::from_str("S3 Buckets:")),
    }
    let ghost heading = lines@[0]@;
    for i in 0..n
        invariant
            n == names.len(),
            lines.len() == i + 1,
            lines@[0]@ == heading,
            forall|j: int| 0 <= j < i ==> #[trigger] lines@[j + 1]@ == entry_line(names@[j]@),
    {
        lines.push(join2("  - ", names[i].as_str()));
    }
    let ghost rest = names_view(names@).map_values(|m: Seq<char>| entry_line(m));
    assert(names_view(lines@) =~= seq![heading] + rest) by {
        assert forall|j: int| 0 <= j < lines.len() implies #[trigger] names_view(lines@)[j] == (seq![heading] + rest)[j] by {
            if j > 0 {
                assert(lines@[(j - 1) + 1]@ == entry_line(names@[j - 1]@));
            }
        }
    }
    lines
}

} // verus!
