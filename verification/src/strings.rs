//! The two string types: a growable `String` built from slices, and the
//! length of a string slice counted in characters.

use vstd::prelude::*;
use vstd::string::StrSliceExecFns;
use vstd::string::StringExecFns;

verus! {

broadcast use vstd::string::group_string_axioms;

/// Builds `"hello"` by growing a `String`: start from `"he"`, append
/// `"llo"`.
pub fn build_greeting() -> (r: String)
    ensures
        r@ == "hello"@,
{
    let mut s = "he".to_string();
    s.append("llo");
    proof {
        reveal_strlit("he");
        reveal_strlit("llo");
        reveal_strlit("hello");
        assert(s@ =~= "hello"@);
    }
    s
}

/// The length of a string slice, counted in characters.
pub fn some_string_length(x: &str) -> (r: usize)
    ensures
        r == x@.len(),
{
    x.unicode_len()
}

} // verus!
