//! Closures: capturing the environment by borrow and by move, taking a
//! closure as an argument, and handing one back from a function.

use vstd::prelude::*;

verus! {

/// A closure borrows `num` from its environment; applied to `5` it yields
/// `10`.
pub fn closures_and_their_environment() -> (r: i32)
    ensures
        r == 10,
{
    let num: i32 = 5;
    let plus_num = |x: i32| -> (res: i32)
        requires
            x + num <= i32::MAX,
        ensures
            res == x + num,
        { x + num };
    plus_num(5)
}

/// A `move` closure owns a copy of what it captures. Adding `50` through a
/// closure over `num2` yields `52`; a move closure over `num5` works on its
/// own copy, so `num5` itself stays `5`.
pub fn move_closures() -> (r: (i32, i32))
    ensures
        r.0 == 52,
        r.1 == 5,
{
    let num: i32 = 6;
    let _owns_num = move |x: i32| -> (res: i32)
        requires
            x + num <= i32::MAX,
        ensures
            res == x + num,
        { x + num };
    let mut num2: i32 = 2;
    let add_num = |x: i32| -> (res: i32)
        requires
            num2 + x <= i32::MAX,
        ensures
            res == num2 + x,
        { num2 + x };
    num2 = add_num(50);
    let num5: i32 = 5;
    let add_num5 = move |x: i32| -> (res: i32)
        requires
            num5 + x <= i32::MAX,
        ensures
            res == num5 + x,
        { num5 + x };
    let _moved_copy: i32 = add_num5(5);
    (num2, num5)
}

/// Calls the given closure with `1`.
pub fn call_with_one<F: Fn(i32) -> i32>(some_closure: F) -> (r: i32)
    requires
        call_requires(some_closure, (1i32,)),
    ensures
        call_ensures(some_closure, (1i32,), r),
{
    some_closure(1)
}

/// Hands a closure that adds two to `call_with_one`; the answer is `3`.
pub fn taking_closures_as_arguments() -> (r: i32)
    ensures
        r == 3,
{
    let add_two = |x: i32| -> (res: i32)
        requires
            x + 2 <= i32::MAX,
        ensures
            res == x + 2,
        { x + 2 };
    let answer = call_with_one(add_two);
    answer
}

/// Builds a closure that adds four to its argument.
pub fn factory() -> (f: impl Fn(i32) -> i32)
    ensures
        forall|x: i32| x + 4 <= i32::MAX ==> #[trigger] call_requires(f, (x,)),
        forall|x: i32, res: i32| #[trigger] call_ensures(f, (x,), res) ==> res == x + 4,
{
    let num: i32 = 4;
    move |x: i32| -> (res: i32)
        requires
            x + num <= i32::MAX,
        ensures
            res == x + num,
        { x + num }
}

/// Gets a closure out of `factory` and applies it to `4`, giving `8`.
pub fn returning_closures() -> (r: i32)
    ensures
        r == 8,
{
    let f = factory();
    f(4)
}

} // verus!
