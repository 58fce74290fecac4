//! `if` as an expression: the chosen branch is the value.

use vstd::prelude::*;

verus! {

/// The shorthand form: assign the `if` expression itself, `202` when `z`
/// is four and `22` otherwise.
pub fn shorthand_if(z: i32) -> (r: i32)
    ensures
        r == if z == 4 {
            202int
        } else {
            22int
        },
{
    if z == 4 {
        202
    } else {
        22
    }
}

} // verus!
