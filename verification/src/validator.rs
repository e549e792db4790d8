//! Grammar checks for user-supplied short codes.

use vstd::prelude::*;

mod alnum;
mod code;
mod default;

pub use alnum::Alnum;
pub use alnum::all_alnum;
pub use alnum::is_alnum_char;
pub use code::Code;
pub use default::DefaultValidator;
pub use default::is_hex_digit;
pub use default::is_pchar;
pub use default::path_segment_ok;

verus! {

/// A grammar on candidate codes: `accepts` is the set of strings the grammar
/// allows, and `validate` decides membership.
pub trait Validate {
    spec fn accepts(&self, s: Seq<char>) -> bool;

    fn validate(&self, code: &str) -> (r: bool)
        ensures
            r == self.accepts(code@),
    ;
}

/// Couples a grammar with the `Code` type: only accepted strings become codes.
pub struct Validator<T: Validate>(T);

impl<T: Validate> Validator<T> {
    /// The grammar this validator applies.
    pub closed spec fn grammar(&self) -> T {
        self.0
    }

    pub fn new(validator: T) -> (v: Self)
        ensures
            v.grammar() == validator,
    {
        Validator(validator)
    }

    /// Turn `s` into a `Code` exactly when the grammar accepts it.
    pub fn validate(&self, s: String) -> (r: Option<Code>)
        ensures
            match r {
                Some(code) => self.grammar().accepts(s@) && code@ == s@,
                None => !self.grammar().accepts(s@),
            },
    {
        if self.0.validate(s.as_str()) {
            Some(Code::new(s))
        } else {
            None
        }
    }
}

} // verus!
