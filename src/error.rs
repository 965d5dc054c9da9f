use vstd::prelude::*;

use crate::codec::ParseError;

verus! {

/// Why a repository operation failed.
#[derive(Clone, Debug)]
pub enum RepositoryError {
    /// No database handle could be established or authenticated in time.
    Connection(String),
    /// The store refused or failed a well-formed query or mutation.
    Query(String),
    /// A text meant to hold an identifier holds none.
    Parse(ParseError),
}

/// Status that the transport reports for a failure of the given kind.
pub open spec fn error_status(e: RepositoryError) -> u16 {
    match e {
        RepositoryError::Parse(_) => 400,
        RepositoryError::Connection(_) => 500,
        RepositoryError::Query(_) => 500,
    }
}

impl RepositoryError {
    /// Status that the transport layer reports for this failure.
    pub fn http_status(&self) -> (r: u16)
        ensures
            r == error_status(*self),
    {
        match self {
            RepositoryError::Parse(_) => 400,
            RepositoryError::Connection(_) => 500,
            RepositoryError::Query(_) => 500,
        }
    }
}

/// Status for the outcome of a lookup: found, absent, or failed.
pub fn lookup_status<T>(r: &Result<Option<T>, RepositoryError>) -> (s: u16)
    ensures
        s == match r {
            Ok(Some(_)) => 200u16,
            Ok(None) => 404u16,
            Err(e) => error_status(*e),
        },
{
    match r {
        Ok(Some(_)) => 200,
        Ok(None) => 404,
        Err(e) => e.http_status(),
    }
}

/// Status for the outcome of an operation that has no "not found" case.
pub fn outcome_status<T>(r: &Result<T, RepositoryError>) -> (s: u16)
    ensures
        s == match r {
            Ok(_) => 200u16,
            Err(e) => error_status(*e),
        },
{
    match r {
        Ok(_) => 200,
        Err(e) => e.http_status(),
    }
}

/// Acknowledgement of an insertion.
#[derive(Clone, Copy, Debug, PartialEq, Eq, Structural)]
pub struct InsertOutcome {
    pub inserted_id: crate::codec::BookId,
}

/// Acknowledgement of an update: documents matched by the filter and documents changed.
#[derive(Clone, Copy, Debug, PartialEq, Eq, Structural)]
pub struct UpdateOutcome {
    pub matched_count: u64,
    pub modified_count: u64,
}

/// Acknowledgement of a deletion: documents removed.
#[derive(Clone, Copy, Debug, PartialEq, Eq, Structural)]
pub struct DeleteOutcome {
    pub deleted_count: u64,
}

} // verus!
