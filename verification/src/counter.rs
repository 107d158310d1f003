//! The shared counter of the demonstration.
//!
//! A `Counter` owns the text that the workers read, parse, increment and
//! re-serialize.  Its invariant — canonical decimal text of a value an
//! `i32` can hold — is established by `new` and preserved by `increment`,
//! so the value can never go negative or turn non-numeric.

use vstd::prelude::*;
use crate::digits::format_decimal;
use crate::digits::is_canonical_dec;
use crate::digits::parse_decimal;
use crate::digits::str_value;

verus! {

/// A counter stored as decimal text, as the demonstration keeps it.
pub struct Counter {
    text: String,
}

impl Counter {
    /// The text the counter currently holds, as a sequence of characters.
    pub closed spec fn repr(&self) -> Seq<char> {
        self.text@
    }

    /// The numeric value the counter's text denotes.
    pub open spec fn value(&self) -> int {
        str_value(self.repr())
    }

    /// The counter's invariant: canonical decimal text of a value that
    /// fits in an `i32`.
    pub open spec fn well_formed(&self) -> bool {
        &&& is_canonical_dec(self.repr())
        &&& str_value(self.repr()) <= i32::MAX
    }

    /// A fresh counter holding `initial`.
    pub fn new(initial: i32) -> (c: Counter)
        requires
            initial >= 0,
        ensures
            c.well_formed(),
            c.value() == initial as int,
    {
        Counter { text: format_decimal(initial) }
    }

    /// One serialized increment: parse the text, add one, store the new
    /// text back.  Exactly what one worker does inside the critical
    /// section.
    pub fn increment(&mut self)
        requires
            old(self).well_formed(),
            old(self).value() < i32::MAX,
        ensures
            final(self).well_formed(),
            final(self).value() == old(self).value() + 1,
    {
        if let Some(n) = parse_decimal(self.text.as_str()) {
            self.text = format_decimal(n + 1);
        } else {
            proof {
                assert(false);
            }
        }
    }

    /// The counter's text, as it would be reported at the end of a round.
    pub fn as_text(&self) -> (r: &str)
        ensures
            r@ == self.repr(),
    {
        self.text.as_str()
    }
}

} // verus!
