//! The `rm` command: what it says, and which answer confirms the removal of
//! a bucket.

use vstd::prelude::*;
use vstd::string::*;

use crate::text::{join3, join5};

verus! {

/// Whether `c` has the Unicode `White_Space` property, the whitespace that
/// `char::is_whitespace` and `str::trim` go by: tab, line feed, vertical
/// tab, form feed, carriage return, space, next line, no-break space, ogham
/// space mark, the spaces from en quad to hair space, line separator,
/// paragraph separator, narrow no-break space, medium mathematical space and
/// ideographic space.
pub open spec fn white_space(c: char) -> bool {
    let u = c as u32;
    ||| 0x9 <= u <= 0xd
    ||| u == 0x20
    ||| u == 0x85
    ||| u == 0xa0
    ||| u == 0x1680
    ||| 0x2000 <= u <= 0x200a
    ||| u == 0x2028
    ||| u == 0x2029
    ||| u == 0x202f
    ||| u == 0x205f
    ||| u == 0x3000
}

/// Whether `c` is whitespace.
pub fn is_white_space(c: char) -> (b: bool)
    ensures
        b == white_space(c),
{
    let u: u32 = c as u32;
    (0x9 <= u && u <= 0xd) || u == 0x20 || u == 0x85 || u == 0xa0 || u == 0x1680 || (0x2000 <= u
        && u <= 0x200a) || u == 0x2028 || u == 0x2029 || u == 0x202f || u == 0x205f || u == 0x3000
}

/// `s` without its leading whitespace.
pub open spec fn trim_start(s: Seq<char>) -> Seq<char>
    decreases s.len(),
{
    if s.len() > 0 && white_space(s[0]) {
        trim_start(s.drop_first())
    } else {
        s
    }
}

/// `s` without its trailing whitespace.
pub open spec fn trim_end(s: Seq<char>) -> Seq<char>
    decreases s.len(),
{
    if s.len() > 0 && white_space(s.last()) {
        trim_end(s.drop_last())
    } else {
        s
    }
}

/// `s` without leading and trailing whitespace, as `str::trim` gives it.
pub open spec fn trimmed(s: Seq<char>) -> Seq<char> {
    trim_end(trim_start(s))
}

/// `s` with leading and trailing whitespace removed.
pub fn trim(s: &str) -> (t: &str)
    ensures
        t@ == trimmed(s@),
{
    let n: usize = s.unicode_len();
    let mut i: usize = 0;
    let mut done = false;
    assert(s@.skip(0) =~= s@);
    while i < n && !done
        invariant
            n == s@.len(),
            i <= n,
            trim_start(s@) == trim_start(s@.skip(i as int)),
            done ==> i < n && !white_space(s@[i as int]),
        decreases 2 * (n - i) + (if done { 0int } else { 1int }),
    {
        if is_white_space(s.get_char(i)) {
            assert(s@.skip(i as int).drop_first() =~= s@.skip(i + 1));
            i = i + 1;
        } else {
            done = true;
        }
    }
    assert(trim_start(s@) == s@.subrange(i as int, n as int)) by {
        assert(s@.skip(i as int) =~= s@.subrange(i as int, n as int));
    }
    let mut j: usize = n;
    let mut done = false;
    while j > i && !done
        invariant
            n == s@.len(),
            i <= j <= n,
            trim_end(s@.subrange(i as int, n as int)) == trim_end(s@.subrange(i as int, j as int)),
            done ==> j > i && !white_space(s@[j - 1]),
        decreases 2 * (j - i) + (if done { 0int } else { 1int }),
    {
        if is_white_space(s.get_char(j - 1)) {
            assert(s@.subrange(i as int, j as int).drop_last() =~= s@.subrange(i as int, j - 1));
            j = j - 1;
        } else {
            done = true;
        }
    }
    s.substring_char(i, j)
}

/// An answer confirms when, trimmed, it is `y` in either case.
pub open spec fn spec_confirms_deletion(answer: Seq<char>) -> bool {
    trimmed(answer) == seq!['y'] || trimmed(answer) == seq!['Y']
}

/// Whether the answer to the question before a bucket is removed confirms
/// the removal (`y` or `Y`, surrounding whitespace aside).
pub fn confirms_deletion(answer: &str) -> (yes: bool)
    ensures
        yes == spec_confirms_deletion(answer@),
{
    let t = trim(answer);
    if t.unicode_len() != 1 {
        return false;
    }
    let c = t.get_char(0);
    proof {
        if c == 'y' {
            assert(t@ =~= seq!['y']);
        } else if c == 'Y' {
            assert(t@ =~= seq!['Y']);
        } else {
            assert(t@ != seq!['y'] && t@ != seq!['Y']) by {
                if t@ == seq!['y'] || t@ == seq!['Y'] {
                    assert(t@[0] == c);
                }
            }
        }
    }
    c == 'y' || c == 'Y'
}

/// Every character of `s` is whitespace.
pub open spec fn all_white(s: Seq<char>) -> bool {
    forall|i: int| 0 <= i < s.len() ==> white_space(#[trigger] s[i])
}

proof fn lemma_trim_start_skips_white(a: Seq<char>, t: Seq<char>)
    requires
        all_white(a),
    ensures
        trim_start(a + t) == trim_start(t),
    decreases a.len(),
{
    if a.len() == 0 {
        assert(a + t =~= t);
    } else {
        assert((a + t)[0] == a[0]);
        assert((a + t).drop_first() =~= a.drop_first() + t);
        assert(all_white(a.drop_first())) by {
            assert forall|i: int| 0 <= i < a.drop_first().len() implies white_space(
                #[trigger] a.drop_first()[i],
            ) by {
                assert(a.drop_first()[i] == a[i + 1]);
            }
        }
        lemma_trim_start_skips_white(a.drop_first(), t);
    }
}

proof fn lemma_trim_end_skips_white(t: Seq<char>, b: Seq<char>)
    requires
        all_white(b),
    ensures
        trim_end(t + b) == trim_end(t),
    decreases b.len(),
{
    if b.len() == 0 {
        assert(t + b =~= t);
    } else {
        assert((t + b).last() == b.last());
        assert((t + b).drop_last() =~= t + b.drop_last());
        assert(all_white(b.drop_last())) by {
            assert forall|i: int| 0 <= i < b.drop_last().len() implies white_space(
                #[trigger] b.drop_last()[i],
            ) by {
                assert(b.drop_last()[i] == b[i]);
            }
        }
        lemma_trim_end_skips_white(t, b.drop_last());
    }
}

proof fn lemma_trim_start_of_append(s: Seq<char>, b: Seq<char>)
    requires
        all_white(b),
    ensures
        trim_start(s).len() > 0 ==> trim_start(s + b) == trim_start(s) + b,
        trim_start(s).len() == 0 ==> trim_start(s + b).len() == 0,
    decreases s.len(),
{
    if s.len() == 0 {
        assert(s + b =~= Seq::<char>::empty() + b);
        lemma_trim_start_skips_white(b, Seq::<char>::empty());
        assert(b + Seq::<char>::empty() =~= b);
        assert(s + b =~= b);
    } else {
        assert((s + b)[0] == s[0]);
        assert((s + b).drop_first() =~= s.drop_first() + b);
        if white_space(s[0]) {
            lemma_trim_start_of_append(s.drop_first(), b);
        }
    }
}

/// Whitespace around an answer does not change whether it confirms.
pub proof fn lemma_confirmation_ignores_surrounding_white(a: Seq<char>, s: Seq<char>, b: Seq<char>)
    requires
        all_white(a),
        all_white(b),
    ensures
        spec_confirms_deletion(a + s + b) == spec_confirms_deletion(s),
{
    assert(a + s + b =~= a + (s + b));
    lemma_trim_start_skips_white(a, s + b);
    lemma_trim_start_of_append(s, b);
    if trim_start(s).len() > 0 {
        lemma_trim_end_skips_white(trim_start(s), b);
    }
}

/// An answer confirms only when, trimmed, it is the single character `y` or
/// `Y`; any other answer, `n`, `N` and the empty answer among them, cancels.
pub proof fn lemma_only_y_confirms(answer: Seq<char>)
    ensures
        spec_confirms_deletion(answer) ==> trimmed(answer).len() == 1 && (trimmed(answer)[0] == 'y'
            || trimmed(answer)[0] == 'Y'),
        trimmed(answer).len() == 1 && (trimmed(answer)[0] == 'y' || trimmed(answer)[0] == 'Y')
            ==> spec_confirms_deletion(answer),
        trimmed(answer).len() != 1 ==> !spec_confirms_deletion(answer),
        trimmed(answer) == seq!['n'] ==> !spec_confirms_deletion(answer),
        trimmed(answer) == seq!['N'] ==> !spec_confirms_deletion(answer),
{
    let t = trimmed(answer);
    if t.len() == 1 && t[0] == 'y' {
        assert(t =~= seq!['y']);
    }
    if t.len() == 1 && t[0] == 'Y' {
        assert(t =~= seq!['Y']);
    }
    if t == seq!['y'] || t == seq!['Y'] {
        assert(t[0] == 'y' || t[0] == 'Y');
    }
    assert(seq!['n'][0] == 'n' && seq!['N'][0] == 'N');
}

/// The line `rm` prints before it removes an object.
pub fn object_deletion_notice(bucket: &str, key: &str) -> (line: String)
    ensures
        line@ == "Deleting object '"@ + key@ + "' from bucket '"@ + bucket@ + "'..."@,
{
    join5("Deleting object '", key, "' from bucket '", bucket, "'...")
}

/// The question `rm` asks before it removes a bucket.
pub fn bucket_deletion_question(bucket: &str) -> (line: String)
    ensures
        line@ == "Are you sure you want to delete the bucket '"@ + bucket@
            + "' and all its contents? (y/N): "@,
{
    join3("Are you sure you want to delete the bucket '", bucket, "' and all its contents? (y/N): ")
}

/// The line `rm` prints before it removes a bucket.
pub fn bucket_deletion_notice(bucket: &str) -> (line: String)
    ensures
        line@ == "Deleting bucket '"@ + bucket@ + "'..."@,
{
    join3("Deleting bucket '", bucket, "'...")
}

} // verus!
