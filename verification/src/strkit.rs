//! The one string primitive the crate takes on trust.

use vstd::prelude::*;

verus! {

/// Relies on str's `PartialEq`: two string slices compare equal exactly when
/// they hold the same sequence of characters.
#[verifier::external_body]
pub fn str_eq(a: &str, b: &str) -> (r: bool)
    ensures
        r == (a@ == b@),
{
    a == b
}

} // verus!
