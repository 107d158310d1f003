//! Borrowing demonstration: what a callee may do with each kind of
//! reference.
//!
//! A mutable borrow lets `just_print_i_swear` replace the caller's string
//! behind its back; a shared borrow provably leaves the string alone.  Each
//! driver returns the lines the demonstration reports, pinned down exactly
//! by its contract.

use vstd::prelude::*;

verus! {

/// The text a deceitful callee leaves behind in a mutably borrowed string.
pub open spec fn lie_text() -> Seq<char> {
    "I lied! But what did you expect? You gave me an explicit mutable ref."@
}

/// Hand back the borrowed text for printing — and then overwrite it, as a
/// mutable borrow permits.
pub fn just_print_i_swear(string: &mut String) -> (r: String)
    ensures
        r@ == old(string)@,
        final(string)@ == lie_text(),
{
    let r = string.clone();
    *string = String::from_str(
        "I lied! But what did you expect? You gave me an explicit mutable ref.",
    );
    r
}

/// Hand back the borrowed text for printing; a shared borrow cannot change
/// the caller's string.
pub fn just_print_i_swear_for_real(string: &String) -> (r: String)
    ensures
        r@ == string@,
{
    string.clone()
}

/// Lend a string mutably and collect the two lines the demonstration
/// prints: the original text, then what the callee left in its place.
pub fn be_deceived() -> (lines: Vec<String>)
    ensures
        lines@.len() == 2,
        lines@[0]@ == "Innocent String"@,
        lines@[1]@ == lie_text(),
{
    let mut string = String::from_str("Innocent String");
    let first = just_print_i_swear(&mut string);
    let mut lines: Vec<String> = Vec::new();
    lines.push(first);
    lines.push(string);
    lines
}

/// Lend a string immutably and collect the two lines the demonstration
/// prints: the same text both times, untouched.
pub fn be_relieved() -> (lines: Vec<String>)
    ensures
        lines@.len() == 2,
        lines@[0]@ == "Actually Innocent String"@,
        lines@[1]@ == "Actually Innocent String"@,
{
    let string = String::from_str("Actually Innocent String");
    let first = just_print_i_swear_for_real(&string);
    let mut lines: Vec<String> = Vec::new();
    lines.push(first);
    lines.push(string);
    lines
}

} // verus!
