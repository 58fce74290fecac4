//! Plain named functions: one that takes no arguments and returns nothing,
//! one that adds one to its argument, and one that adds two numbers.

use vstd::prelude::*;

verus! {

/// A function with no parameters and no return value.
pub fn empty_function() {
}

/// Adds one to `x`.
pub fn add_one(x: i32) -> (r: i32)
    requires
        x < i32::MAX,
    ensures
        r == x + 1,
{
    x + 1
}

/// Adds `x` and `y`.
pub fn sum(x: i32, y: i32) -> (r: i32)
    requires
        i32::MIN <= x + y <= i32::MAX,
    ensures
        r == x + y,
{
    x + y
}

} // verus!
