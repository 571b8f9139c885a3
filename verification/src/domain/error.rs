//! The error every operation of the domain reports.

use vstd::prelude::*;

verus! {

/// Domain error, free of any framework.
#[derive(Debug)]
pub enum DomainError {
    /// The resource was not found.
    NotFound(String),
    /// The request data is invalid.
    BadRequest(String),
    /// Internal failure (its details are not shown to clients).
    Internal(String),
    /// Conflict with stored data (duplicate SKU, duplicate record).
    Conflict(String),
}

impl DomainError {
    /// The message carried by the error.
    pub open spec fn message(&self) -> Seq<char> {
        match self {
            DomainError::NotFound(m) => m@,
            DomainError::BadRequest(m) => m@,
            DomainError::Internal(m) => m@,
            DomainError::Conflict(m) => m@,
        }
    }
}

/// `r` is the error `NotFound` carrying the message `m`.
pub open spec fn is_not_found<T>(r: Result<T, DomainError>, m: Seq<char>) -> bool {
    r matches Err(DomainError::NotFound(s)) && s@ == m
}

/// `r` is the error `NotFound`, whatever its message.
pub open spec fn is_some_not_found<T>(r: Result<T, DomainError>) -> bool {
    r matches Err(DomainError::NotFound(_))
}

/// `r` is the error `BadRequest` carrying the message `m`.
pub open spec fn is_bad_request<T>(r: Result<T, DomainError>, m: Seq<char>) -> bool {
    r matches Err(DomainError::BadRequest(s)) && s@ == m
}

/// `r` is the error `Conflict` carrying the message `m`.
pub open spec fn is_conflict<T>(r: Result<T, DomainError>, m: Seq<char>) -> bool {
    r matches Err(DomainError::Conflict(s)) && s@ == m
}

/// `r` is the error `Internal` carrying the message `m`.
pub open spec fn is_internal<T>(r: Result<T, DomainError>, m: Seq<char>) -> bool {
    r matches Err(DomainError::Internal(s)) && s@ == m
}

} // verus!
