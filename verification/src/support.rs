//! Trusted text and boolean helpers.
//!
//! The case-insensitive title search leans on two text operations of std and
//! the gateway validation on the negation helper of the `is_false` crate;
//! each call is wrapped here with the contract the callee's documentation
//! gives, and everything built on top is verified against these contracts.

use vstd::prelude::*;

verus! {

/// `needle` occurs contiguously somewhere in `hay`.
pub open spec fn has_substring(hay: Seq<char>, needle: Seq<char>) -> bool {
    exists|i: int|
        0 <= i <= hay.len() - needle.len() && #[trigger] hay.subrange(i, i + needle.len())
            == needle
}

/// The Unicode lowercasing of a character sequence, a function of the
/// characters alone.
pub uninterp spec fn lower_of(s: Seq<char>) -> Seq<char>;

/// Relies on `str::to_lowercase`: the result depends on the characters of
/// the input alone.
#[verifier::external_body]
pub fn lowercase(s: &str) -> (r: String)
    ensures
        r@ == lower_of(s@),
{
    s.to_lowercase()
}

/// Relies on `str::contains` with a string pattern: true exactly when the
/// pattern matches a sub-slice of the string. A byte-level match between
/// valid UTF-8 strings always falls on character boundaries, so the
/// sub-slice relation over bytes coincides with `has_substring` over the
/// character sequences.
#[verifier::external_body]
pub fn str_contains(hay: &str, needle: &str) -> (r: bool)
    ensures
        r == has_substring(hay@, needle@),
{
    hay.contains(needle)
}

/// Relies on `str::starts_with` with a string pattern: true exactly when
/// the pattern matches a prefix of the string; over valid UTF-8 the byte
/// prefix relation coincides with the character-sequence prefix relation.
#[verifier::external_body]
pub fn str_starts_with(s: &str, prefix: &str) -> (r: bool)
    ensures
        r == prefix@.is_prefix_of(s@),
{
    s.starts_with(prefix)
}

/// Relies on `is_false::is_false`, which returns the negation of its
/// argument.
#[verifier::external_body]
pub fn is_false(b: bool) -> (r: bool)
    ensures
        r == !b,
{
    is_false::is_false(b)
}

} // verus!
