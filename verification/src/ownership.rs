//! Move semantics demonstration: a string handed to another owner.
//!
//! `do_with_str` takes its argument by value, stores it in a vector and
//! hands the stored element back; `pass_vec` drives it.  The contracts pin
//! the output down to the text that went in, which is what makes the move
//! harmless.

use vstd::prelude::*;

verus! {

/// Take ownership of `string`, keep it in a vector, and return the element
/// the vector holds — the very text that was moved in.
pub fn do_with_str(string: String) -> (r: String)
    ensures
        r@ == string@,
{
    let mut strs: Vec<String> = Vec::new();
    strs.push(string);
    strs.remove(0)
}

/// Build a string, move it into `do_with_str`, and return what comes back:
/// always the text "Test".
pub fn pass_vec() -> (r: String)
    ensures
        r@ == "Test"@,
{
    let string = String::from_str("Test");
    do_with_str(string)
}

} // verus!
