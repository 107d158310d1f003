//! Error handling demonstration: operations that always fail, and a caller
//! that matches on them instead of unwrapping.
//!
//! Both fallible operations fail by construction, and their contracts say
//! so; `handle_failures` therefore provably reports one abort line and
//! nothing else.

use vstd::prelude::*;

verus! {

/// The line reported when a fallible operation turns out to have failed.
pub open spec fn abort_text() -> Seq<char> {
    "Something failed. Aborting..."@
}

/// An operation that always fails with a unit error.
pub fn something_that_may_fail() -> (r: Result<(), ()>)
    ensures
        r is Err,
{
    Err(())
}

/// An operation that always fails instead of producing a string.
pub fn something_that_may_fail_with_result() -> (r: Result<String, ()>)
    ensures
        r is Err,
{
    Err(())
}

/// Try both fallible operations, matching on each result rather than
/// unwrapping it, and collect the lines the demonstration prints.  The
/// first operation always fails, so the result is exactly one abort line.
pub fn handle_failures() -> (lines: Vec<String>)
    ensures
        lines@.len() == 1,
        lines@[0]@ == abort_text(),
{
    let mut lines: Vec<String> = Vec::new();
    match something_that_may_fail() {
        Err(_) => {
            lines.push(String::from_str("Something failed. Aborting..."));
            return lines;
        },
        _ => {},
    };
    match something_that_may_fail_with_result() {
        Ok(value) => lines.push(value),
        Err(_) => lines.push(String::from_str("Something failed. Aborting...")),
    }
    lines
}

} // verus!
