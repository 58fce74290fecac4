//! Greetings and farewells, with the exact text of each pinned down.

use vstd::prelude::*;

verus! {

broadcast use vstd::string::group_string_axioms;

/// Returns the greeting text.
pub fn hello() -> (r: String)
    ensures
        r@ == "Hello !"@,
{
    "Hello !".to_string()
}

/// Returns the farewell text, by way of `goodbye`.
pub fn cya() -> (r: String)
    ensures
        r@ == "Goodbye"@,
{
    goodbye()
}

/// Returns the farewell text.
pub fn goodbye() -> (r: String)
    ensures
        r@ == "Goodbye"@,
{
    "Goodbye".to_string()
}

} // verus!
