//! The HTTP API's error value and the shared error envelope it is sent as.

use vstd::prelude::*;

verus! {

/// `serde_json::Value`, carried opaquely as structured error details.
#[verifier::external_type_specification]
#[verifier::external_body]
pub struct ExJsonValue(serde_json::Value);

/// HTTP status 400 Bad Request.
pub const STATUS_BAD_REQUEST: u16 = 400;

/// HTTP status 404 Not Found.
pub const STATUS_NOT_FOUND: u16 = 404;

/// HTTP status 500 Internal Server Error.
pub const STATUS_INTERNAL_SERVER_ERROR: u16 = 500;

/// A shared error envelope returned by the HTTP API.
///
/// The `code` field is a short, machine-readable error kind (e.g. `not_found`),
/// `message` is a human-readable explanation, and `details` may carry
/// structured, endpoint-specific information.
#[derive(Debug, Clone)]
pub struct ErrorResponse {
    pub code: String,
    pub message: String,
    pub details: Option<serde_json::Value>,
}

/// An error answered by the HTTP API: its status code and the envelope fields.
#[derive(Debug)]
pub struct AppError {
    pub status: u16,
    pub code: String,
    pub message: String,
    pub details: Option<serde_json::Value>,
}

impl AppError {
    /// An error with the given status, code and message, and no details.
    pub fn new(status: u16, code: &str, message: &str) -> (e: AppError)
        ensures
            e.status == status,
            e.code@ == code@,
            e.message@ == message@,
            e.details is None,
    {
        AppError { status, code: code.to_owned(), message: message.to_owned(), details: None }
    }

    /// A 500 `internal_error` with the given message.
    pub fn internal(message: &str) -> (e: AppError)
        ensures
            e.status == STATUS_INTERNAL_SERVER_ERROR,
            e.code@ == "internal_error"@,
            e.message@ == message@,
            e.details is None,
    {
        Self::new(STATUS_INTERNAL_SERVER_ERROR, "internal_error", message)
    }

    /// The same error carrying `details`.
    pub fn with_details(self, details: serde_json::Value) -> (e: AppError)
        ensures
            e.status == self.status,
            e.code == self.code,
            e.message == self.message,
            e.details == Some(details),
    {
        AppError { details: Some(details), ..self }
    }

    /// The status code and the envelope that answer this error.
    pub fn into_parts(self) -> (parts: (u16, ErrorResponse))
        ensures
            parts.0 == self.status,
            parts.1.code == self.code,
            parts.1.message == self.message,
            parts.1.details == self.details,
    {
        (self.status, ErrorResponse { code: self.code, message: self.message, details: self.details })
    }
}

} // verus!
