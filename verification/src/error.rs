//! Service-level error taxonomy.
//!
//! `ApiError` is the closed set of failures that the service layer reports.
//! The mapping from these variants to client-facing status codes belongs to
//! the surrounding web layer, never to this crate.

use vstd::prelude::*;
use vstd::string::StringExecFns;

verus! {

/// The error type returned by the service-level operations.
#[derive(Debug)]
pub enum ApiError {
    Database(String),
    Validation(String),
    NotFound(String),
    Internal(String),
    BadRequest(String),
    Unauthorized(String),
    Conflict(String),
    PasswordHash(String),
}

impl ApiError {
    /// The human-readable description of the error: a fixed prefix naming
    /// the kind, followed by the carried detail.
    pub open spec fn spec_message(&self) -> Seq<char> {
        match self {
            ApiError::Database(m) => "Database error: "@ + m@,
            ApiError::Validation(m) => "Validation error: "@ + m@,
            ApiError::NotFound(m) => "Not found: "@ + m@,
            ApiError::Internal(m) => "Internal server error: "@ + m@,
            ApiError::BadRequest(m) => "Bad request: "@ + m@,
            ApiError::Unauthorized(m) => "Unauthorized: "@ + m@,
            ApiError::Conflict(m) => "Conflict: "@ + m@,
            ApiError::PasswordHash(m) => "Password hashing error: "@ + m@,
        }
    }

    /// The human-readable description of the error.
    pub fn message(&self) -> (r: String)
        ensures
            r@ == self.spec_message(),
    {
        match self {
            ApiError::Database(m) => String::from_str("Database error: ").concat(m.as_str()),
            ApiError::Validation(m) => String::from_str("Validation error: ").concat(m.as_str()),
            ApiError::NotFound(m) => String::from_str("Not found: ").concat(m.as_str()),
            ApiError::Internal(m) => String::from_str("Internal server error: ").concat(
                m.as_str(),
            ),
            ApiError::BadRequest(m) => String::from_str("Bad request: ").concat(m.as_str()),
            ApiError::Unauthorized(m) => String::from_str("Unauthorized: ").concat(m.as_str()),
            ApiError::Conflict(m) => String::from_str("Conflict: ").concat(m.as_str()),
            ApiError::PasswordHash(m) => String::from_str("Password hashing error: ").concat(
                m.as_str(),
            ),
        }
    }
}

} // verus!
