//! Fixed-size arrays, growable vectors, and slices viewed into an array.

use vstd::prelude::*;
use vstd::slice::slice_subrange;

verus! {

/// A fixed-size array has a known length, and access by index is checked
/// against it: the length of `[1, 2, 3]` and the second of three names.
pub fn arrays() -> (r: (usize, &'static str))
    ensures
        r.0 == 3,
        r.1@ == "BR"@,
{
    let arr: [i32; 3] = [1, 2, 3];
    let names: [&'static str; 3] = ["Grayd", "BR", "A"];
    (arr.len(), names[1])
}

/// A vector grows on push: `[33, 2]` with `222` appended.
pub fn vector() -> (r: Vec<i32>)
    ensures
        r@ =~= seq![33i32, 2i32, 222i32],
{
    let mut nums: Vec<i32> = vec![33, 2];
    nums.push(222);
    nums
}

/// A slice is a view into an array: the middle three of five values, read
/// back out element by element.
pub fn slices() -> (r: Vec<i32>)
    ensures
        r@ =~= seq![39i32, 10i32, 20i32],
{
    let a: [i32; 5] = [2, 39, 10, 20, 8];
    let middle: &[i32] = slice_subrange(a.as_slice(), 1, 4);
    let mut out: Vec<i32> = Vec::new();
    let mut i: usize = 0;
    while i < middle.len()
        invariant
            0 <= i <= middle@.len(),
            middle@ =~= a@.subrange(1, 4),
            a@ =~= seq![2i32, 39i32, 10i32, 20i32, 8i32],
            out@ =~= middle@.subrange(0, i as int),
        decreases middle@.len() - i,
    {
        out.push(middle[i]);
        i += 1;
    }
    out
}

} // verus!
