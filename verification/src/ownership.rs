//! Ownership and borrowing: a box handed over and handed back, mutation
//! through a borrow, lifetimes written out and elided, and shared ownership
//! of one value through reference counting.

use std::rc::Rc;
use vstd::prelude::*;

verus! {

broadcast use vstd::string::group_string_axioms;

/// Takes ownership of the box, adds one to its contents, and transfers
/// ownership back.
pub fn add_one(num: Box<i32>) -> (r: Box<i32>)
    requires
        *num < i32::MAX,
    ensures
        *r == *num + 1,
{
    let mut num = num;
    *num += 1;
    num
}

/// Borrows the value instead of taking ownership, and adds one in place.
pub fn add_one2(num: &mut i32)
    requires
        *old(num) < i32::MAX,
    ensures
        *final(num) == *old(num) + 1,
{
    *num += 1;
}

/// The same borrow, with its lifetime elided.
pub fn lifetime1(num: &mut i32)
    requires
        *old(num) < i32::MAX,
    ensures
        *final(num) == *old(num) + 1,
{
    *num += 1;
}

/// The same borrow, with its lifetime written out.
pub fn lifetime2<'a>(num: &'a mut i32)
    requires
        *old(num) < i32::MAX,
    ensures
        *final(num) == *old(num) + 1,
{
    *num += 1;
}

/// A car, owned by whoever holds it.
pub struct Car {
    pub name: String,
}

/// A wheel that knows which car it is attached to; the car is shared, so
/// the handle is reference-counted.
pub struct Wheel {
    pub size: i32,
    pub owner: Rc<Car>,
}

/// Relies on `Rc::clone`: the new handle points at the same allocation, so
/// it holds the same value.
#[verifier::external_body]
fn clone_handle(car: &Rc<Car>) -> (r: Rc<Car>)
    ensures
        r == *car,
{
    Rc::clone(car)
}

/// Four wheels sharing one car: each holds a counted handle to the same
/// `Car`, which a box could not give.
pub fn shared_ownership() -> (r: Vec<Wheel>)
    ensures
        r@.len() == 4,
        forall|j: int| 0 <= j < 4 ==> #[trigger] r@[j].size == 360,
        forall|j: int| 0 <= j < 4 ==> #[trigger] r@[j].owner.name@ == "MB"@,
{
    let car = Car { name: "MB".to_string() };
    let car_owner = Rc::new(car);
    let mut wheels: Vec<Wheel> = Vec::new();
    let mut i: usize = 0;
    while i < 4
        invariant
            0 <= i <= 4,
            wheels@.len() == i,
            car_owner.name@ == "MB"@,
            forall|j: int| 0 <= j < i ==> #[trigger] wheels@[j].size == 360,
            forall|j: int| 0 <= j < i ==> #[trigger] wheels@[j].owner.name@ == "MB"@,
        decreases 4 - i,
    {
        wheels.push(Wheel { size: 360, owner: clone_handle(&car_owner) });
        i += 1;
    }
    wheels
}

} // verus!
