//! The library's own URL value: the normalized text of an absolute, parseable
//! resource locator, opaque beyond syntactic validity and never mutated once
//! accepted.

use vstd::prelude::*;

verus! {

/// What `url::Url::parse` yields on `s`: `Some` of the normalized
/// serialization when `s` parses as an absolute URL, `None` otherwise. The
/// result depends on the input string alone.
pub uninterp spec fn url_parse(s: Seq<char>) -> Option<Seq<char>>;

/// An absolute URL, held as the normalized text its parse produced.
#[derive(Debug)]
pub struct Url {
    text: String,
}

impl View for Url {
    type V = Seq<char>;

    closed spec fn view(&self) -> Seq<char> {
        self.text@
    }
}

impl Clone for Url {
    fn clone(&self) -> (r: Self)
        ensures
            r == *self,
    {
        Url { text: self.text.clone() }
    }
}

impl Url {
    /// Relies on `url::Url::parse`: it parses an absolute URL from a string,
    /// deterministically, and `String::from` on the parsed value returns its
    /// normalized serialization.
    #[verifier::external_body]
    pub fn parse(s: &str) -> (r: Option<Url>)
        ensures
            r is Some <==> url_parse(s@) is Some,
            r matches Some(u) ==> u@ == url_parse(s@).unwrap(),
    {
        match url::Url::parse(s) {
            Ok(u) => Some(Url { text: String::from(u) }),
            Err(_) => None,
        }
    }

    /// The URL's serialization.
    pub fn as_str(&self) -> (s: &str)
        ensures
            s@ == self@,
    {
        self.text.as_str()
    }
}

} // verus!
