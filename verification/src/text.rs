//! Character-sequence predicates and the two string operations the matcher
//! takes from the standard library: lowercasing and substring containment.

use vstd::prelude::*;
use vstd::string::StringExecFns;

verus! {

/// `needle` occurs as a contiguous subsequence of `hay`.
pub open spec fn contains_seq(hay: Seq<char>, needle: Seq<char>) -> bool {
    exists|i: int|
        0 <= i && i + needle.len() <= hay.len() && #[trigger] hay.subrange(i, i + needle.len())
            == needle
}

/// The character sequence that `str::to_lowercase` yields for `s`.
pub uninterp spec fn lower_of(s: Seq<char>) -> Seq<char>;

/// Relies on `str::to_lowercase`: the result is a function of the characters
/// alone, and the Unicode lowercase mapping sends an already-lowercased
/// string to itself, so the result is a fixed point of lowercasing.
#[verifier::external_body]
pub(crate) fn lowercase(s: &str) -> (r: String)
    ensures
        r@ == lower_of(s@),
        lower_of(r@) == r@,
{
    s.to_lowercase()
}

/// Relies on `str::contains` with a `&str` pattern: it returns true exactly
/// when the pattern occurs as a contiguous sub-slice of the haystack.
#[verifier::external_body]
pub(crate) fn contains_sub(hay: &str, needle: &str) -> (r: bool)
    ensures
        r == contains_seq(hay@, needle@),
{
    hay.contains(needle)
}

/// `a` and `b` joined by a single space.
pub open spec fn join2(a: Seq<char>, b: Seq<char>) -> Seq<char> {
    a + " "@ + b
}

/// `a`, `b` and `c` joined by single spaces.
pub open spec fn join3(a: Seq<char>, b: Seq<char>, c: Seq<char>) -> Seq<char> {
    a + " "@ + b + " "@ + c
}

/// Space-joins two fragments of a candidate phrase.
pub(crate) fn join2_exec(a: &String, b: &String) -> (r: String)
    ensures
        r@ == join2(a@, b@),
{
    let mut r: String = a.clone();
    r.append(" ");
    r.append(b.as_str());
    r
}

/// Space-joins three fragments of a candidate phrase.
pub(crate) fn join3_exec(a: &String, b: &String, c: &String) -> (r: String)
    ensures
        r@ == join3(a@, b@, c@),
{
    let mut r: String = a.clone();
    r.append(" ");
    r.append(b.as_str());
    r.append(" ");
    r.append(c.as_str());
    r
}

} // verus!
