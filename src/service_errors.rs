use vstd::prelude::*;
use vstd::string::StringExecFns;

use crate::response::{ErrorResponse, INTERNAL_SERVER_ERROR};
use crate::sqlite_errors::SqliteError;

verus! {

/// A failure as the service layer reports it to clients.
///
/// Every kind is sent with status 500, a wrapped `NotFound` included: a
/// client is not told whether a resource exists.
#[derive(Debug)]
pub enum ServiceError {
    ServiceError(String),
    SqliteError(SqliteError),
    ArgonError,
    JwtError,
    UnknownServiceError,
}

impl ServiceError {
    /// The category name of the failure.
    pub open spec fn category(&self) -> Seq<char> {
        match self {
            ServiceError::ServiceError(_) => "Service layer error"@,
            ServiceError::SqliteError(_) => "Sqlite internal error"@,
            ServiceError::ArgonError => "Argon internal error"@,
            ServiceError::JwtError => "Jwt internal error"@,
            ServiceError::UnknownServiceError => "Unknown service layer error"@,
        }
    }

    /// Whether `s` is the detail text of the failure: the wrapped storage
    /// failure's message, the service's own message where it is not empty, a
    /// fixed text otherwise.
    pub open spec fn detail_fits(&self, s: Seq<char>) -> bool {
        match self {
            ServiceError::ServiceError(m) => s == if m@.len() > 0 {
                m@
            } else {
                "The service failed without a message"@
            },
            ServiceError::SqliteError(e) => e.message_fits(s),
            ServiceError::ArgonError => s == "Password hashing failed"@,
            ServiceError::JwtError => s == "Token handling failed"@,
            ServiceError::UnknownServiceError => s == "Unknown service layer error"@,
        }
    }

    /// The status of the failure: 500 for every kind.
    pub open spec fn status(&self) -> u16 {
        INTERNAL_SERVER_ERROR
    }

    pub fn name(&self) -> (r: String)
        ensures
            r@ == self.category(),
            r@.len() > 0,
    {
        proof {
            reveal_strlit("Service layer error");
            reveal_strlit("Sqlite internal error");
            reveal_strlit("Argon internal error");
            reveal_strlit("Jwt internal error");
            reveal_strlit("Unknown service layer error");
        }
        match self {
            ServiceError::ServiceError(_) => String::from_str("Service layer error"),
            ServiceError::SqliteError(_) => String::from_str("Sqlite internal error"),
            ServiceError::ArgonError => String::from_str("Argon internal error"),
            ServiceError::JwtError => String::from_str("Jwt internal error"),
            ServiceError::UnknownServiceError => String::from_str("Unknown service layer error"),
        }
    }

    pub fn detail(&self) -> (r: String)
        ensures
            self.detail_fits(r@),
            r@.len() > 0,
    {
        proof {
            reveal_strlit("The service failed without a message");
            reveal_strlit("Password hashing failed");
            reveal_strlit("Token handling failed");
            reveal_strlit("Unknown service layer error");
        }
        match self {
            ServiceError::ServiceError(m) => {
                if m.as_str().is_empty() {
                    String::from_str("The service failed without a message")
                } else {
                    m.clone()
                }
            },
            ServiceError::SqliteError(e) => e.message(),
            ServiceError::ArgonError => String::from_str("Password hashing failed"),
            ServiceError::JwtError => String::from_str("Token handling failed"),
            ServiceError::UnknownServiceError => String::from_str("Unknown service layer error"),
        }
    }

    pub fn status_code(&self) -> (r: u16)
        ensures
            r == self.status(),
    {
        INTERNAL_SERVER_ERROR
    }

    /// Renders the failure as a response body; never fails.
    pub fn error_response(&self) -> (r: ErrorResponse)
        ensures
            r.code == self.status(),
            r.error_type@ == self.category(),
            self.detail_fits(r.detailed_error@),
            r.error_type@.len() > 0,
            r.detailed_error@.len() > 0,
    {
        ErrorResponse { code: self.status_code(), error_type: self.name(), detailed_error: self.detail() }
    }
}

impl From<SqliteError> for ServiceError {
    fn from(e: SqliteError) -> (r: ServiceError)
        ensures
            r == ServiceError::SqliteError(e),
    {
        ServiceError::SqliteError(e)
    }
}

impl vstd::std_specs::convert::FromSpecImpl<SqliteError> for ServiceError {
    open spec fn obeys_from_spec() -> bool {
        true
    }

    open spec fn from_spec(e: SqliteError) -> ServiceError {
        ServiceError::SqliteError(e)
    }
}

} // verus!
