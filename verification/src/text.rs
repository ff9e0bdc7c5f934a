//! Strings, as far as the library compares them.

use vstd::prelude::*;

verus! {

/// `str::eq` of the standard library, which `==` on string slices calls.
/// Claimed: two slices are equal exactly where they hold the same
/// characters in the same order.
pub assume_specification[ <str as PartialEq>::eq ](a: &str, b: &str) -> (r: bool)
    ensures
        r == (a@ == b@),
;

/// The characters of an optional string.
pub open spec fn spec_chars(text: Option<String>) -> Option<Seq<char>> {
    match text {
        Some(s) => Some(s@),
        None => None,
    }
}

} // verus!
