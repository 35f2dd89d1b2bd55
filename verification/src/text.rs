//! Comparison of texts.

use vstd::prelude::*;

verus! {

/// Whether two texts hold the same characters.
pub fn same_text(a: &str, b: &str) -> (same: bool)
    ensures
        same == (a@ == b@),
{
    let a = a.to_owned();
    let b = b.to_owned();
    a == b
}

} // verus!
