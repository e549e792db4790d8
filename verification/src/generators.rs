//! Candidate-code generators: a sequential counter and a random base-62
//! draw. Neither consults storage; collision handling belongs to the
//! orchestrator.

use vstd::prelude::*;

mod counter;
mod rb62;

pub use counter::Counter;
pub use counter::decimal_digits;
pub use counter::digit_char;
pub use rb62::RB62;

verus! {

/// Relies on `String::push`: it appends exactly the given character.
pub assume_specification[ String::push ](s: &mut String, ch: char)
    ensures
        final(s)@ == old(s)@.push(ch),
;

} // verus!
