//! How a domain error is answered over HTTP.

use vstd::prelude::*;

use crate::domain::error::DomainError;

verus! {

/// A domain error on its way to an HTTP client.
#[derive(Debug)]
pub struct HttpError(pub DomainError);

/// Message shown to clients for internal failures, whose details stay private.
pub open spec fn internal_failure_message() -> Seq<char> {
    "Erro interno do servidor"@
}

impl HttpError {
    /// The HTTP status of the answer: 404 for `NotFound`, 400 for
    /// `BadRequest`, 500 for `Internal`, 409 for `Conflict`.
    pub fn status_code(&self) -> (r: u16)
        ensures
            r == match self.0 {
                DomainError::NotFound(_) => 404u16,
                DomainError::BadRequest(_) => 400u16,
                DomainError::Internal(_) => 500u16,
                DomainError::Conflict(_) => 409u16,
            },
    {
        match &self.0 {
            DomainError::NotFound(_) => 404,
            DomainError::BadRequest(_) => 400,
            DomainError::Internal(_) => 500,
            DomainError::Conflict(_) => 409,
        }
    }

    /// The message the client sees: the error's own, except for internal
    /// failures, which are not disclosed.
    pub fn client_message(&self) -> (r: String)
        ensures
            self.0 is Internal ==> r@ == internal_failure_message(),
            !(self.0 is Internal) ==> r@ == self.0.message(),
    {
        match &self.0 {
            DomainError::NotFound(m) => m.clone(),
            DomainError::BadRequest(m) => m.clone(),
            DomainError::Internal(_) => String::from_str("Erro interno do servidor"),
            DomainError::Conflict(m) => m.clone(),
        }
    }
}

impl From<DomainError> for HttpError {
    fn from(err: DomainError) -> (r: HttpError) {
        HttpError(err)
    }
}

impl vstd::std_specs::convert::FromSpecImpl<DomainError> for HttpError {
    open spec fn obeys_from_spec() -> bool {
        true
    }

    open spec fn from_spec(v: DomainError) -> HttpError {
        HttpError(v)
    }
}

} // verus!
