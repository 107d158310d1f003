//! A small demonstration library built around one piece of genuine
//! concurrency logic: a shared counter, stored as decimal text, that a set
//! of workers increments under mutual exclusion.
//!
//! The counter's text is parsed, incremented and re-serialized on every
//! step; the `digits` module proves that parsing and formatting agree.  The
//! `round` module models one round of the demonstration: a sequence of lock
//! acquisition outcomes determines the final counter value exactly.  The
//! `ownership`, `borrowing` and `errors` modules carry the pure parts of the
//! remaining demonstrations, each with a contract pinning down its output.

pub mod borrowing;
pub mod counter;
pub mod digits;
pub mod errors;
pub mod ownership;
pub mod round;

pub use digits::format_decimal;
pub use digits::increment_text;
pub use digits::parse_decimal;
