//! Loops: a `while` loop driven by a flag, and a bare `loop` that leaves
//! through `break`.

use vstd::prelude::*;

verus! {

/// Repeats `x += x - 3` until `x` lands on a multiple of five. Starting from
/// zero the values are `-3`, `-9`, `-21`, `-45`, and the loop stops at `-45`.
pub fn while_loop() -> (r: i32)
    ensures
        r == -45,
{
    let mut x: i32 = 0;
    let mut done = false;
    while !done
        invariant
            done ==> x == -45,
            !done ==> (x == 0 || x == -3 || x == -9 || x == -21),
        decreases 45 + x,
    {
        x += x - 3;
        if x % 5 == 0 {
            done = true;
        }
    }
    x
}

/// Counts up by tens until `1000`, recording every multiple of seventy seen
/// on the way. Returns the final count and the fourteen recorded values.
pub fn infinite_loop() -> (r: (i32, Vec<i32>))
    ensures
        r.0 == 1000,
        r.1@.len() == 14,
        forall|j: int| 0 <= j < 14 ==> r.1@[j] == 70 * (j + 1),
{
    let mut x: i32 = 0;
    let mut seen: Vec<i32> = Vec::new();
    loop
        invariant_except_break
            0 <= x <= 990,
            x % 10 == 0,
            70 * seen@.len() <= x < 70 * (seen@.len() + 1),
            forall|j: int| 0 <= j < seen@.len() ==> seen@[j] == 70 * (j + 1),
        ensures
            x == 1000,
            seen@.len() == 14,
            forall|j: int| 0 <= j < 14 ==> seen@[j] == 70 * (j + 1),
        decreases 1000 - x,
    {
        x += 10;
        if x == 1000 {
            break;
        } else if x % 70 == 0 {
            seen.push(x);
        } else {
            continue;
        }
    }
    (x, seen)
}

} // verus!
