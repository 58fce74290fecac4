//! Matching: a number against literal arms, a three-way comparison against
//! its variants, and an optional value against present and missing.

use core::cmp::Ordering;
use vstd::prelude::*;

verus! {

/// Names the digits one to five; everything else falls to the default arm.
pub fn match_digit(x: i32) -> (r: &'static str)
    ensures
        x == 1 ==> r@ == "one"@,
        x == 2 ==> r@ == "two"@,
        x == 3 ==> r@ == "three"@,
        x == 4 ==> r@ == "four"@,
        x == 5 ==> r@ == "five"@,
        !(1 <= x <= 5) ==> r@ == "default"@,
{
    match x {
        1 => "one",
        2 => "two",
        3 => "three",
        4 => "four",
        5 => "five",
        _ => "default",
    }
}

/// Names each variant of a comparison; the match covers all three, so no
/// default arm is needed.
pub fn describe_ordering(o: Ordering) -> (r: &'static str)
    ensures
        o == Ordering::Less ==> r@ == "less"@,
        o == Ordering::Greater ==> r@ == "greater"@,
        o == Ordering::Equal ==> r@ == "equal"@,
{
    match o {
        Ordering::Less => "less",
        Ordering::Greater => "greater",
        Ordering::Equal => "equal",
    }
}

/// Compares `5` with `8` and names the outcome.
pub fn match_ordering() -> (r: &'static str)
    ensures
        r@ == "less"@,
{
    let x: i32 = 5;
    let y: i32 = 8;
    describe_ordering(crate::compound::cmp(x, y))
}

/// An integer that may be missing.
pub enum OptionalInt {
    Value(i32),
    Missing,
}

/// Takes the value out of an `OptionalInt`, if there is one.
pub fn value_of(x: &OptionalInt) -> (r: Option<i32>)
    ensures
        match *x {
            OptionalInt::Value(n) => r == Some(n),
            OptionalInt::Missing => r == None::<i32>,
        },
{
    match x {
        OptionalInt::Value(n) => Some(*n),
        OptionalInt::Missing => None,
    }
}

/// Matches a present value and a missing one: `Value(5)` yields its number,
/// `Missing` yields nothing.
pub fn enum_match() -> (r: (Option<i32>, Option<i32>))
    ensures
        r.0 == Some(5i32),
        r.1 == None::<i32>,
{
    let x = OptionalInt::Value(5);
    let y = OptionalInt::Missing;
    (value_of(&x), value_of(&y))
}

} // verus!
