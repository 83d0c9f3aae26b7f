//! Comparing strings.
use vstd::prelude::*;

verus! {

/// `str::eq`: two string slices are equal exactly if they hold the same
/// characters in the same order.
pub assume_specification[ <str as PartialEq>::eq ](a: &str, b: &str) -> (r: bool)
    ensures
        r == (a@ == b@),
;

} // verus!
