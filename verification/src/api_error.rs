//! The errors the HTTP API answers with: their status codes, machine codes
//! and messages. Errors raised by the database, JSON and token libraries are
//! carried by their message.

use vstd::prelude::*;
use crate::text::concat;

verus! {

#[derive(Debug)]
pub enum ApiError {
    Authentication(String),
    Authorization(String),
    Validation(String),
    BadRequest(String),
    NotFound(String),
    Conflict(String),
    InternalServerError,
    Database(String),
    Pool(String),
    Json(String),
    Jwt(String),
    Stellar(String),
    Compliance(String),
    RateLimit(String),
}

/// The HTTP status and machine code each error is answered with.
pub open spec fn status_and_code_spec(e: ApiError) -> (u16, Seq<char>) {
    match e {
        ApiError::Authentication(_) => (401, "AUTHENTICATION_FAILED"@),
        ApiError::Authorization(_) => (403, "AUTHORIZATION_FAILED"@),
        ApiError::Validation(_) => (400, "VALIDATION_ERROR"@),
        ApiError::BadRequest(_) => (400, "BAD_REQUEST"@),
        ApiError::NotFound(_) => (404, "NOT_FOUND"@),
        ApiError::Conflict(_) => (409, "CONFLICT"@),
        ApiError::InternalServerError => (500, "INTERNAL_ERROR"@),
        ApiError::Database(_) => (500, "DATABASE_ERROR"@),
        ApiError::Pool(_) => (500, "DATABASE_ERROR"@),
        ApiError::Json(_) => (400, "INVALID_JSON"@),
        ApiError::Jwt(_) => (401, "INVALID_TOKEN"@),
        ApiError::Stellar(_) => (400, "STELLAR_ERROR"@),
        ApiError::Compliance(_) => (403, "COMPLIANCE_VIOLATION"@),
        ApiError::RateLimit(_) => (429, "RATE_LIMIT_EXCEEDED"@),
    }
}

/// The human-readable message of each error.
pub open spec fn message_spec(e: ApiError) -> Seq<char> {
    match e {
        ApiError::Authentication(m) => "Authentication failed: "@ + m@,
        ApiError::Authorization(m) => "Authorization failed: "@ + m@,
        ApiError::Validation(m) => "Validation error: "@ + m@,
        ApiError::BadRequest(m) => "Bad request: "@ + m@,
        ApiError::NotFound(m) => "Not found: "@ + m@,
        ApiError::Conflict(m) => "Conflict: "@ + m@,
        ApiError::InternalServerError => "Internal server error"@,
        ApiError::Database(m) => "Database error: "@ + m@,
        ApiError::Pool(m) => "Pool error: "@ + m@,
        ApiError::Json(m) => "JSON error: "@ + m@,
        ApiError::Jwt(m) => "JWT error: "@ + m@,
        ApiError::Stellar(m) => "Stellar error: "@ + m@,
        ApiError::Compliance(m) => "Compliance violation: "@ + m@,
        ApiError::RateLimit(m) => "Rate limit exceeded: "@ + m@,
    }
}

impl ApiError {
    /// The HTTP status code and machine code of the error.
    pub fn status_and_code(&self) -> (r: (u16, &'static str))
        ensures
            r.0 == status_and_code_spec(*self).0,
            r.1@ == status_and_code_spec(*self).1,
    {
        match self {
            ApiError::Authentication(_) => (401, "AUTHENTICATION_FAILED"),
            ApiError::Authorization(_) => (403, "AUTHORIZATION_FAILED"),
            ApiError::Validation(_) => (400, "VALIDATION_ERROR"),
            ApiError::BadRequest(_) => (400, "BAD_REQUEST"),
            ApiError::NotFound(_) => (404, "NOT_FOUND"),
            ApiError::Conflict(_) => (409, "CONFLICT"),
            ApiError::InternalServerError => (500, "INTERNAL_ERROR"),
            ApiError::Database(_) => (500, "DATABASE_ERROR"),
            ApiError::Pool(_) => (500, "DATABASE_ERROR"),
            ApiError::Json(_) => (400, "INVALID_JSON"),
            ApiError::Jwt(_) => (401, "INVALID_TOKEN"),
            ApiError::Stellar(_) => (400, "STELLAR_ERROR"),
            ApiError::Compliance(_) => (403, "COMPLIANCE_VIOLATION"),
            ApiError::RateLimit(_) => (429, "RATE_LIMIT_EXCEEDED"),
        }
    }

    /// The error's message, as its `Display` form reads.
    pub fn message(&self) -> (r: String)
        ensures
            r@ == message_spec(*self),
    {
        match self {
            ApiError::Authentication(m) => concat("Authentication failed: ", m.as_str()),
            ApiError::Authorization(m) => concat("Authorization failed: ", m.as_str()),
            ApiError::Validation(m) => concat("Validation error: ", m.as_str()),
            ApiError::BadRequest(m) => concat("Bad request: ", m.as_str()),
            ApiError::NotFound(m) => concat("Not found: ", m.as_str()),
            ApiError::Conflict(m) => concat("Conflict: ", m.as_str()),
            ApiError::InternalServerError => "Internal server error".to_owned(),
            ApiError::Database(m) => concat("Database error: ", m.as_str()),
            ApiError::Pool(m) => concat("Pool error: ", m.as_str()),
            ApiError::Json(m) => concat("JSON error: ", m.as_str()),
            ApiError::Jwt(m) => concat("JWT error: ", m.as_str()),
            ApiError::Stellar(m) => concat("Stellar error: ", m.as_str()),
            ApiError::Compliance(m) => concat("Compliance violation: ", m.as_str()),
            ApiError::RateLimit(m) => concat("Rate limit exceeded: ", m.as_str()),
        }
    }

    /// An internal error; the message is not shown to clients.
    pub fn internal_server_error(message: String) -> (r: ApiError)
        ensures
            r == ApiError::InternalServerError,
    {
        ApiError::InternalServerError
    }
}

} // verus!
