//! Backend-level error values kept as plain types for callers that want to
//! report a single condition rather than the full taxonomy.

use vstd::prelude::*;

verus! {

/// The code already exists in the backend.
#[derive(Debug)]
pub struct AlreadyExists;

/// The code was not found in the backend.
#[derive(Debug)]
pub struct NotFound;

/// A backend failure, with its reason.
#[derive(Debug)]
pub struct InternalError(pub String);

impl AlreadyExists {
    /// A short description of the condition.
    pub fn message(&self) -> (m: &str)
        ensures
            m@ == "the code already exists"@,
    {
        "the code already exists"
    }
}

impl NotFound {
    /// A short description of the condition.
    pub fn message(&self) -> (m: &str)
        ensures
            m@ == "the code was not found"@,
    {
        "the code was not found"
    }
}

impl InternalError {
    /// A short description of the condition.
    pub fn message(&self) -> (m: String)
        ensures
            m@ == "internal error: "@ + self.0@,
    {
        String::from_str("internal error: ").concat(self.0.as_str())
    }
}

} // verus!
