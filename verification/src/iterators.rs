//! Consuming and transforming ranges of numbers: collecting a range into a
//! vector, finding the first value past a threshold, keeping the even values,
//! and taking the first five values that pass two filters.

use vstd::prelude::*;

verus! {

/// Collects the numbers from `1` to `100` into a vector.
pub fn collect_range() -> (r: Vec<i32>)
    ensures
        r@.len() == 100,
        forall|i: int| 0 <= i < 100 ==> r@[i] == i + 1,
{
    let mut v: Vec<i32> = Vec::new();
    let mut x: i32 = 1;
    while x < 101
        invariant
            1 <= x <= 101,
            v@.len() == x - 1,
            forall|i: int| 0 <= i < v@.len() ==> v@[i] == i + 1,
        decreases 101 - x,
    {
        v.push(x);
        x += 1;
    }
    v
}

/// Finds the first number in `0..bound` that is greater than `threshold`:
/// the smallest candidate when one is in range, nothing otherwise.
pub fn find_first_greater(bound: i32, threshold: i32) -> (r: Option<i32>)
    requires
        0 <= bound,
    ensures
        ({
            let first = if threshold < 0 { 0int } else { threshold + 1 };
            if first < bound {
                r == Some(first as i32)
            } else {
                r == None::<i32>
            }
        }),
{
    let mut x: i32 = 0;
    while x < bound
        invariant
            0 <= x <= bound,
            x > 0 ==> x - 1 <= threshold,
        decreases bound - x,
    {
        if x > threshold {
            return Some(x);
        }
        x += 1;
    }
    None
}

/// Two consumers at work: the collected range `1..=100`, and the first
/// number in `0..100` greater than `42`, which is `43`.
pub fn consumers() -> (r: (Vec<i32>, Option<i32>))
    ensures
        r.0@.len() == 100,
        forall|i: int| 0 <= i < 100 ==> r.0@[i] == i + 1,
        r.1 == Some(43i32),
{
    let one_to_one_hundred = collect_range();
    let greater_than_forty_two = find_first_greater(100, 42);
    (one_to_one_hundred, greater_than_forty_two)
}

/// Keeps the even numbers of `1..100`: the forty-nine values `2, 4, ..., 98`.
pub fn iterator_adapters() -> (r: Vec<i32>)
    ensures
        r@.len() == 49,
        forall|j: int| 0 <= j < 49 ==> r@[j] == 2 * (j + 1),
{
    let mut evens: Vec<i32> = Vec::new();
    let mut x: i32 = 1;
    while x < 100
        invariant
            2 * evens@.len() <= x - 1 < 2 * (evens@.len() + 1),
            1 <= x <= 100,
            forall|j: int| 0 <= j < evens@.len() ==> evens@[j] == 2 * (j + 1),
        decreases 100 - x,
    {
        if x % 2 == 0 {
            evens.push(x);
        }
        x += 1;
    }
    evens
}

/// Takes the first five numbers of `1..1000` that both filters let through,
/// divisibility by two and by three: `6, 12, 18, 24, 30`.
pub fn combo() -> (r: Vec<i32>)
    ensures
        r@.len() == 5,
        forall|j: int| 0 <= j < 5 ==> r@[j] == 6 * (j + 1),
{
    let mut nums: Vec<i32> = Vec::new();
    let mut x: i32 = 1;
    while x < 1000
        invariant_except_break
            1 <= x <= 1000,
            nums@.len() < 5,
            6 * nums@.len() <= x - 1 < 6 * (nums@.len() + 1),
            forall|j: int| 0 <= j < nums@.len() ==> nums@[j] == 6 * (j + 1),
        ensures
            nums@.len() == 5,
            forall|j: int| 0 <= j < 5 ==> nums@[j] == 6 * (j + 1),
        decreases 1000 - x,
    {
        if x % 2 == 0 && x % 3 == 0 {
            nums.push(x);
            if nums.len() == 5 {
                break;
            }
        }
        x += 1;
    }
    nums
}

} // verus!
