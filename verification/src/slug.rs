//! A validated code as a standalone value: a `Slug` is a string that passed
//! the default path-segment grammar.

use vstd::prelude::*;

use crate::validator::DefaultValidator;
use crate::validator::Validate;
use crate::validator::path_segment_ok;

verus! {

/// A string that passed the default path-segment grammar.
#[derive(Debug, Hash, Eq, PartialEq)]
pub struct Slug(String);

/// Checks candidates against the default path-segment grammar.
#[derive(Default)]
pub struct Validator;

impl View for Slug {
    type V = Seq<char>;

    closed spec fn view(&self) -> Seq<char> {
        self.0@
    }
}

impl Clone for Slug {
    fn clone(&self) -> (r: Self)
        ensures
            r == *self,
    {
        Slug(self.0.clone())
    }
}

impl Slug {
    pub(crate) fn new(s: String) -> (r: Self)
        ensures
            r@ == s@,
    {
        Slug(s)
    }

    pub fn as_str(&self) -> (s: &str)
        ensures
            s@ == self@,
    {
        self.0.as_str()
    }
}

impl Validator {
    /// Return the slug exactly when `code` matches the default grammar.
    pub fn validate<'a>(&self, code: &'a str) -> (r: Option<Slug>)
        ensures
            match r {
                Some(s) => path_segment_ok(code@) && s@ == code@,
                None => !path_segment_ok(code@),
            },
    {
        let grammar = DefaultValidator;
        if grammar.validate(code) {
            Some(Slug::new(code.to_owned()))
        } else {
            None
        }
    }
}

} // verus!
