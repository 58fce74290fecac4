//! Compound data: tuples, structs with named fields, tuple structs and the
//! newtype pattern, a small enum, and three-way comparison.

use core::cmp::Ordering;
use vstd::prelude::*;

verus! {

/// Returns the two numbers after `x`.
pub fn next_two(x: i32) -> (r: (i32, i32))
    requires
        x + 2 <= i32::MAX,
    ensures
        r.0 == x + 1,
        r.1 == x + 2,
{
    (x + 1, x + 2)
}

/// Compares two triples field by field.
pub fn triple_eq(a: (i32, i32, i32), b: (i32, i32, i32)) -> (r: bool)
    ensures
        r == (a == b),
{
    a.0 == b.0 && a.1 == b.1 && a.2 == b.2
}

/// Tuples demo: mutate a pair by assignment, compare two triples whose
/// elements are reversed, and take two values out of one call.
pub fn tuples() -> (r: ((i32, i32), bool, (i32, i32)))
    ensures
        r.0 == (2i32, 3i32),
        r.1 == false,
        r.2 == (99i32, 100i32),
{
    let mut q: (i32, i32) = (1, 2);
    let o: (i32, i32) = (2, 3);
    q = o;
    let equal = triple_eq((1, 2, 3), (3, 2, 1));
    let (z1, z2) = next_two(98);
    (q, equal, (z1, z2))
}

/// A point with three named fields.
pub struct Point {
    pub x: i32,
    pub y: i32,
    pub z: i32,
}

/// Builds one immutable point and one point whose last field is then
/// overwritten.
pub fn structs() -> (r: (Point, Point))
    ensures
        r.0.x == 29 && r.0.y == 101 && r.0.z == 2992,
        r.1.x == 1 && r.1.y == 2 && r.1.z == 33,
{
    let origin = Point { x: 29, y: 101, z: 2992 };
    let mut origin2 = Point { x: 1, y: 2, z: 0 };
    origin2.z = 33;
    (origin, origin2)
}

/// A tuple struct: named type, unnamed fields.
pub struct Color(pub i32, pub i32, pub i32);

/// A one-element tuple struct: the newtype pattern.
pub struct Inches(pub i32);

/// Builds a color and a length, and takes the inner value back out of the
/// newtype by destructuring.
pub fn tuple_structs() -> (r: (Color, i32))
    ensures
        r.0.0 == 1 && r.0.1 == 1 && r.0.2 == 1,
        r.1 == 10,
{
    let black = Color(1, 1, 1);
    let length = Inches(10);
    let Inches(integer_length) = length;
    (black, integer_length)
}

/// Either a digit with its value, or something else with no data.
pub enum Character {
    Digit(i32),
    Other,
}

/// Builds one variant that carries data and one that does not.
pub fn enums() -> (r: (Character, Character))
    ensures
        r.0 == Character::Digit(10),
        r.1 == Character::Other,
{
    let ten = Character::Digit(10);
    let other = Character::Other;
    (ten, other)
}

/// Three-way comparison of two numbers.
pub fn cmp(a: i32, b: i32) -> (r: Ordering)
    ensures
        r == Ordering::Less <==> a < b,
        r == Ordering::Greater <==> a > b,
        r == Ordering::Equal <==> a == b,
{
    if a < b {
        Ordering::Less
    } else if a > b {
        Ordering::Greater
    } else {
        Ordering::Equal
    }
}

/// Compares `5` with `10` and names the outcome.
pub fn ordering() -> (r: &'static str)
    ensures
        r@ == "less"@,
{
    let x: i32 = 5;
    let y: i32 = 10;
    let o = cmp(x, y);
    match o {
        Ordering::Less => "less",
        Ordering::Greater => "greater",
        Ordering::Equal => "equal",
    }
}

} // verus!
