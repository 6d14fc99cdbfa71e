//! Comparisons of text that the rules of the library are stated over.

use vstd::prelude::*;

verus! {

/// Calls `<str as PartialEq>::eq`: string equality is equality of contents.
#[verifier::external_body]
pub(crate) fn str_equal(a: &str, b: &str) -> (r: bool)
    ensures
        r == (a@ == b@),
{
    a == b
}

} // verus!
