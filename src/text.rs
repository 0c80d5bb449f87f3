//! Comparing and hashing strings by their contents.
use std::cmp::Ordering;
use vstd::prelude::*;
use vstd::string::StringSliceAdditionalSpecFns;
use vstd::utf8::encode_utf8;

verus! {

/// Relies on `<str as PartialEq>::eq`: two strings are equal exactly when
/// they hold the same characters.
#[verifier::external_body]
pub(crate) fn str_eq(a: &str, b: &str) -> (r: bool)
    ensures
        r == (a@ == b@),
{
    a == b
}

/// Lexicographic order of byte sequences: the first differing byte decides,
/// and a proper prefix comes first.
pub open spec fn lex_cmp(a: Seq<u8>, b: Seq<u8>) -> Ordering
    decreases a.len(),
{
    if a.len() == 0 {
        if b.len() == 0 {
            Ordering::Equal
        } else {
            Ordering::Less
        }
    } else if b.len() == 0 {
        Ordering::Greater
    } else if a[0] < b[0] {
        Ordering::Less
    } else if a[0] > b[0] {
        Ordering::Greater
    } else {
        lex_cmp(a.drop_first(), b.drop_first())
    }
}

/// The order of strings: lexicographic on their UTF-8 bytes.
pub open spec fn str_order(a: Seq<char>, b: Seq<char>) -> Ordering {
    lex_cmp(encode_utf8(a), encode_utf8(b))
}

/// Relies on `<str as Ord>::cmp`: strings are ordered lexicographically by
/// their byte values.
#[verifier::external_body]
pub(crate) fn str_cmp(a: &str, b: &str) -> (r: Ordering)
    ensures
        r == lex_cmp(a.spec_bytes(), b.spec_bytes()),
{
    Ord::cmp(a, b)
}

/// Relies on `<str as Hash>::hash`: feeds the string to the hasher, so that a
/// value hashes exactly as its contents do.
#[verifier::external_body]
pub(crate) fn hash_str<H: std::hash::Hasher>(s: &str, state: &mut H) {
    std::hash::Hash::hash(s, state)
}

} // verus!
