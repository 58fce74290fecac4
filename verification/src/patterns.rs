//! Patterns: or-patterns and ranges with a binding, match guards, and
//! destructuring a struct inside a pattern.

use crate::matching::OptionalInt;
use vstd::prelude::*;

verus! {

/// Sorts a number into three bins: one or two, the range from three to ten
/// (bound to a name with `@`), and anything else.
pub fn classify(x: i32) -> (r: &'static str)
    ensures
        x == 1 || x == 2 ==> r@ == "one or two"@,
        3 <= x <= 10 ==> r@ == "range from 3 to 10"@,
        !(1 <= x <= 10) ==> r@ == "anything"@,
{
    match x {
        1 | 2 => "one or two",
        _var @ 3..=10 => "range from 3 to 10",
        _ => "anything",
    }
}

/// A guard refines a pattern: a value bigger than five is told apart from
/// the other values, and both from a missing one.
pub fn classify_optional(x: &OptionalInt) -> (r: &'static str)
    ensures
        match *x {
            OptionalInt::Value(i) => if i > 5 {
                r@ == "Got an int bigger than five!"@
            } else {
                r@ == "Got an int!"@
            },
            OptionalInt::Missing => r@ == "No such luck"@,
        },
{
    match x {
        OptionalInt::Value(i) if *i > 5 => "Got an int bigger than five!",
        OptionalInt::Value(_) => "Got an int!",
        OptionalInt::Missing => "No such luck",
    }
}

/// A point in the plane.
pub struct Po {
    pub x: i32,
    pub y: i32,
}

/// Destructures a `Po` inside a pattern, keeping only its first field.
pub fn first_coordinate(p: &Po) -> (r: i32)
    ensures
        r == p.x,
{
    match p {
        Po { x, .. } => *x,
    }
}

} // verus!
