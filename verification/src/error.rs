//! The error taxonomy shared by every backend, the cache decorator and the
//! orchestrator: `Duplicate`, `NotFound`, `Internal` and `BadAlias`, and the
//! two composite kinds that store and load operations report.

use vstd::prelude::*;

verus! {

/// A uniqueness violation on store.
#[derive(Debug)]
pub struct Duplicate;

/// No mapping exists for the given code.
#[derive(Debug)]
pub struct NotFound;

/// An I/O, driver or pool failure, with its reason.
#[derive(Debug)]
pub struct Internal(pub(crate) String);

/// A candidate code that fails the validator grammar.
#[derive(Debug)]
pub struct BadAlias;

/// What a store operation can fail with.
#[derive(Debug)]
pub enum Storage {
    Duplicate,
    BadAlias,
    Internal(String),
}

/// What a load operation can fail with.
#[derive(Debug)]
pub enum Load {
    NotFound,
    BadAlias,
    Internal(String),
}

impl View for Internal {
    type V = Seq<char>;

    closed spec fn view(&self) -> Seq<char> {
        self.0@
    }
}

impl Internal {
    /// Fold a store error into the opaque internal error the orchestrator
    /// reports.
    pub fn from_storage(err: Storage) -> (r: Internal)
        ensures
            r@ == match err {
                Storage::Duplicate => "duplicate entry"@,
                Storage::BadAlias => "bad alias"@,
                Storage::Internal(msg) => msg@,
            },
    {
        match err {
            Storage::Duplicate => Internal("duplicate entry".to_owned()),
            Storage::BadAlias => Internal("bad alias".to_owned()),
            Storage::Internal(msg) => Internal(msg),
        }
    }

    /// The failure's reason.
    pub fn message(&self) -> (m: &str)
        ensures
            m@ == self@,
    {
        self.0.as_str()
    }

    /// The HTTP status this error maps to at the request boundary.
    pub fn status_code(&self) -> (c: u16)
        ensures
            c == 500,
    {
        500
    }
}

impl Storage {
    /// A short description of the error.
    pub fn message(&self) -> (m: String)
        ensures
            m@ == match self {
                Storage::Duplicate => "duplicate entry"@,
                Storage::BadAlias => "bad alias"@,
                Storage::Internal(msg) => "internal storage error: "@ + msg@,
            },
    {
        match self {
            Storage::Duplicate => "duplicate entry".to_owned(),
            Storage::BadAlias => "bad alias".to_owned(),
            Storage::Internal(msg) => String::from_str("internal storage error: ").concat(
                msg.as_str(),
            ),
        }
    }

    /// The HTTP status this error maps to at the request boundary: 409 for a
    /// duplicate, 400 for a rejected alias, 500 otherwise.
    pub fn status_code(&self) -> (c: u16)
        ensures
            self is Duplicate ==> c == 409,
            self is BadAlias ==> c == 400,
            self is Internal ==> c == 500,
    {
        match self {
            Storage::Duplicate => 409,
            Storage::BadAlias => 400,
            Storage::Internal(_) => 500,
        }
    }
}

impl Load {
    /// A short description of the error.
    pub fn message(&self) -> (m: String)
        ensures
            m@ == match self {
                Load::NotFound => "not found"@,
                Load::BadAlias => "bad alias"@,
                Load::Internal(msg) => "internal load error: "@ + msg@,
            },
    {
        match self {
            Load::NotFound => "not found".to_owned(),
            Load::BadAlias => "bad alias".to_owned(),
            Load::Internal(msg) => String::from_str("internal load error: ").concat(msg.as_str()),
        }
    }

    /// The HTTP status this error maps to at the request boundary: 404 when
    /// the code is unknown, 400 for a rejected alias, 500 otherwise.
    pub fn status_code(&self) -> (c: u16)
        ensures
            self is NotFound ==> c == 404,
            self is BadAlias ==> c == 400,
            self is Internal ==> c == 500,
    {
        match self {
            Load::NotFound => 404,
            Load::BadAlias => 400,
            Load::Internal(_) => 500,
        }
    }
}

} // verus!
