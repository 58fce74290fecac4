//! References and boxes: reading through a shared reference, writing through
//! a mutable one, heap allocation with `Box`, and a recursive list type whose
//! spine lives behind boxes.

use vstd::prelude::*;

verus! {

/// Returns the successor of the referent.
pub fn succ(x: &i32) -> (r: i32)
    requires
        *x < i32::MAX,
    ensures
        r == *x + 1,
{
    *x + 1
}

/// Adds the two referents.
pub fn add(x: &i32, y: &i32) -> (r: i32)
    requires
        i32::MIN <= *x + *y <= i32::MAX,
    ensures
        r == *x + *y,
{
    *x + *y
}

/// Adds one to the referent in place.
pub fn increment(x: &mut i32)
    requires
        *old(x) < i32::MAX,
    ensures
        *final(x) == *old(x) + 1,
{
    *x += 1;
}

/// Reads values through shared references: with `x == 5`, `y == 9` and
/// `z == &y`, computes `x + *z` and the successor of `2`.
pub fn reference_pointer() -> (r: (i32, i32))
    ensures
        r.0 == 14,
        r.1 == 3,
{
    let x: i32 = 5;
    let y: i32 = 9;
    let z = &y;
    let total = x + *z;
    let a: i32 = 2;
    (total, succ(&a))
}

/// Allocates `2` on the heap and increments it four times through a mutable
/// reference into the box.
pub fn boxes_pointer() -> (r: i32)
    ensures
        r == 6,
{
    let mut r = Box::new(2i32);
    increment(&mut r);
    increment(&mut r);
    increment(&mut r);
    increment(&mut r);
    *r
}

/// A singly linked list; each tail is boxed because the length, and so the
/// size, is not known at compile time.
pub enum List<T> {
    Cons(T, Box<List<T>>),
    Nil,
}

impl<T> List<T> {
    /// The sequence of values held by the list, front first.
    pub open spec fn view(&self) -> Seq<T>
        decreases self,
    {
        match self {
            List::Cons(v, tail) => seq![*v] + tail.view(),
            List::Nil => Seq::empty(),
        }
    }

    /// The number of values in the list.
    pub fn length(&self) -> (r: usize)
        requires
            self.view().len() < usize::MAX,
        ensures
            r == self.view().len(),
        decreases *self,
    {
        match self {
            List::Cons(_, tail) => 1 + tail.length(),
            List::Nil => 0,
        }
    }
}

/// Builds the list `1, 2, 3` on the heap.
pub fn best_practices() -> (r: List<i32>)
    ensures
        r.view() =~= seq![1i32, 2i32, 3i32],
{
    let r = List::Cons(
        1,
        Box::new(List::Cons(2, Box::new(List::Cons(3, Box::new(List::Nil))))),
    );
    proof {
        reveal_with_fuel(List::view, 4);
    }
    r
}

/// Looks into an optional string without moving out of it.
pub fn peek_contents<'a>(x: &'a Option<String>) -> (r: Option<&'a String>)
    ensures
        match *x {
            Some(_) => r matches Some(s) && s@ == x.unwrap()@,
            None => r matches None,
        },
{
    match x {
        Some(s) => Some(s),
        None => None,
    }
}

} // verus!
