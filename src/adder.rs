//! Adding a fixed amount to an integer.
use vstd::prelude::*;

verus! {

/// `x + 2`; the sum must fit in an `i32`.
pub fn add_two(x: i32) -> (r: i32)
    requires
        x <= i32::MAX - 2,
    ensures
        r == x + 2,
{
    x + 2
}

} // verus!
