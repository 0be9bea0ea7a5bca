use vstd::prelude::*;

verus! {

/// Relies on `<str as PartialEq>::eq`: two string slices are equal exactly
/// when they hold the same characters.
#[verifier::external_body]
pub(crate) fn str_eq(a: &str, b: &str) -> (r: bool)
    ensures
        r == (a@ == b@),
{
    a == b
}

/// `e` is a suffix of `s`, character for character.
pub open spec fn has_suffix(s: Seq<char>, e: Seq<char>) -> bool {
    e.len() <= s.len() && s.subrange(s.len() - e.len(), s.len() as int) == e
}

/// Relies on `str::ends_with` with a `&str` pattern: true exactly when `e` is a
/// suffix of `s` (a byte suffix of valid UTF-8 that is itself valid UTF-8 is a
/// character suffix).
#[verifier::external_body]
pub(crate) fn ends_with(s: &str, e: &str) -> (r: bool)
    ensures
        r == has_suffix(s@, e@),
{
    s.ends_with(e)
}

} // verus!
