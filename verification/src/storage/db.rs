//! The backend-local translation every relational backend shares: driver
//! outcomes, reported as plain values, become the common error taxonomy, and
//! a fetched row becomes a URL. The driver calls themselves are issued by the
//! embedding program; only their results pass through here.

use vstd::prelude::*;

use crate::urls::Url;
use crate::urls::url_parse;

verus! {

/// A database driver failure, reduced to what the taxonomy distinguishes:
/// a violation of the unique constraint on the code column, or anything
/// else, with its reason.
#[derive(Debug)]
pub enum DriverError {
    UniqueViolation,
    Other(String),
}

/// Translate a driver's insert outcome: a unique-constraint violation is a
/// duplicate, every other failure is internal.
pub fn store_outcome(r: Result<(), DriverError>) -> (out: Result<(), crate::error::Storage>)
    ensures
        match r {
            Ok(()) => out is Ok,
            Err(DriverError::UniqueViolation) => out matches Err(e) && e is Duplicate,
            Err(DriverError::Other(msg)) => out matches Err(e) && e matches
                crate::error::Storage::Internal(m) && m@ == msg@,
        },
{
    match r {
        Ok(()) => Ok(()),
        Err(DriverError::UniqueViolation) => Err(crate::error::Storage::Duplicate),
        Err(DriverError::Other(msg)) => Err(crate::error::Storage::Internal(msg)),
    }
}

/// Translate a driver's select outcome: no row means the code is unknown, a
/// row must hold a parseable URL, and anything else is internal. A stored row
/// that is not a URL means the store is corrupt, which is internal too.
pub fn load_outcome(r: Result<Option<String>, DriverError>) -> (out: Result<
    Url,
    crate::error::Load,
>)
    ensures
        match r {
            Ok(Some(row)) => match out {
                Ok(u) => url_parse(row@) is Some && u@ == url_parse(row@).unwrap(),
                Err(e) => url_parse(row@) is None && e is Internal,
            },
            Ok(None) => out matches Err(e) && e is NotFound,
            Err(DriverError::UniqueViolation) => out matches Err(e) && e is Internal,
            Err(DriverError::Other(msg)) => out matches Err(e) && e matches
                crate::error::Load::Internal(m) && m@ == msg@,
        },
{
    match r {
        Ok(Some(row)) => match Url::parse(row.as_str()) {
            Some(u) => Ok(u),
            None => Err(crate::error::Load::Internal("stored row is not a URL".to_owned())),
        },
        Ok(None) => Err(crate::error::Load::NotFound),
        Err(DriverError::UniqueViolation) => Err(
            crate::error::Load::Internal("unexpected constraint violation".to_owned()),
        ),
        Err(DriverError::Other(msg)) => Err(crate::error::Load::Internal(msg)),
    }
}

} // verus!
