//! The errors of the library, grouped by what went wrong.

use vstd::prelude::*;
use vstd::string::StringExecFns;

verus! {

/// What went wrong. `Storage` and `Internal` carry the detail of a failing
/// backend for the log; it never becomes part of an answer.
#[derive(Debug)]
pub enum ContentError {
    /// Absent, soft-deleted, or nothing to download.
    NotFound,
    /// The state does not allow the operation yet.
    NotReady(String),
    /// A transition that the lifecycle does not have.
    InvalidState(String),
    /// A status name that no status has.
    InvalidStatus(String),
    /// A live row already holds the unique key.
    Conflict(String),
    /// The blob store failed.
    Storage(String),
    /// Anything else: database, I/O, a dependency.
    Internal(String),
}

impl ContentError {
    /// The text that `message` returns.
    pub open spec fn text(self) -> Seq<char> {
        match self {
            ContentError::NotFound => "resource not found"@,
            ContentError::NotReady(detail) => "not ready: "@ + detail@,
            ContentError::InvalidState(detail) => "invalid state: "@ + detail@,
            ContentError::InvalidStatus(detail) => "invalid status: "@ + detail@,
            ContentError::Conflict(detail) => "conflict: "@ + detail@,
            ContentError::Storage(_) => "storage backend error"@,
            ContentError::Internal(detail) => detail@,
        }
    }

    /// The error in words. The detail of a `Storage` error stays out of it.
    pub fn message(&self) -> (s: String)
        ensures
            s@ == self.text(),
    {
        match self {
            ContentError::NotFound => "resource not found".to_owned(),
            ContentError::NotReady(detail) => "not ready: ".to_owned().concat(detail.as_str()),
            ContentError::InvalidState(detail) => "invalid state: ".to_owned().concat(
                detail.as_str(),
            ),
            ContentError::InvalidStatus(detail) => "invalid status: ".to_owned().concat(
                detail.as_str(),
            ),
            ContentError::Conflict(detail) => "conflict: ".to_owned().concat(detail.as_str()),
            ContentError::Storage(_) => "storage backend error".to_owned(),
            ContentError::Internal(detail) => detail.clone(),
        }
    }
}

} // verus!
