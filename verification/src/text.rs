//! Comparing texts.

use vstd::prelude::*;
use vstd::string::*;

verus! {

/// True when the two texts hold the same characters.
pub fn same_text(left: &str, right: &str) -> (same: bool)
    ensures
        same == (left@ == right@),
{
    let left_owned = String::from_str(left);
    let right_owned = String::from_str(right);
    left_owned == right_owned
}

} // verus!
