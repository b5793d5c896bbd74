//! Comparison of strings.

use vstd::prelude::*;

verus! {

/// `==` on `str`: two strings are equal where they hold the same characters
/// in the same order. The contract is assumed.
#[verifier::external_body]
pub(crate) fn same(a: &str, b: &str) -> (r: bool)
    ensures
        r == (a@ == b@),
{
    a == b
}

} // verus!
