//! String comparisons of the standard library for which `vstd` has no
//! specification. Both contracts are taken on trust.

use vstd::prelude::*;

verus! {

/// `==` on `str`: whether the two hold the same characters.
#[verifier::external_body]
pub(crate) fn same_text(left: &str, right: &str) -> (same: bool)
    ensures
        same == (left@ == right@),
{
    left == right
}

/// `str::starts_with` with a string pattern: whether `prefix` is the
/// beginning of `text`.
#[verifier::external_body]
pub(crate) fn starts_with(text: &str, prefix: &str) -> (yes: bool)
    ensures
        yes == prefix@.is_prefix_of(text@),
{
    text.starts_with(prefix)
}

} // verus!
