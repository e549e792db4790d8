use vstd::prelude::*;

verus! {

/// A short code under which a URL is filed. Codes are created by a generator
/// or by a `Validator`, and are never changed afterwards.
#[derive(Debug, Hash, Eq)]
pub struct Code(pub(crate) String);

impl PartialEq for Code {
    fn eq(&self, other: &Code) -> (r: bool) {
        self.0 == other.0
    }
}

impl vstd::std_specs::cmp::PartialEqSpecImpl for Code {
    open spec fn obeys_eq_spec() -> bool {
        true
    }

    open spec fn eq_spec(&self, other: &Code) -> bool {
        self@ == other@
    }
}

impl View for Code {
    type V = Seq<char>;

    closed spec fn view(&self) -> Seq<char> {
        self.0@
    }
}

impl Clone for Code {
    fn clone(&self) -> (r: Self)
        ensures
            r == *self,
    {
        Code(self.0.clone())
    }
}

impl Code {
    pub(crate) fn new(s: String) -> (c: Self)
        ensures
            c@ == s@,
    {
        Code(s)
    }

    pub fn as_str(&self) -> (s: &str)
        ensures
            s@ == self@,
    {
        self.0.as_str()
    }
}

} // verus!
