//! The error answered to clients: HTTP status, stable code, message.

use vstd::prelude::*;

verus! {

/// HTTP status codes used by the service.
pub const STATUS_OK: u16 = 200;
pub const STATUS_CREATED: u16 = 201;
pub const STATUS_ACCEPTED: u16 = 202;
pub const STATUS_NO_CONTENT: u16 = 204;
pub const STATUS_UNAUTHORIZED: u16 = 401;
pub const STATUS_NOT_FOUND: u16 = 404;
pub const STATUS_METHOD_NOT_ALLOWED: u16 = 405;
pub const STATUS_CONFLICT: u16 = 409;
pub const STATUS_UNPROCESSABLE_ENTITY: u16 = 422;
pub const STATUS_INTERNAL_SERVER_ERROR: u16 = 500;

/// An error answered to a client: an HTTP status, a stable machine-readable
/// code and a human-readable message.
pub struct ApiError {
    pub status: u16,
    pub code: &'static str,
    pub message: String,
}

impl ApiError {
    /// The error has this status, code and message.
    pub open spec fn is(self, status: u16, code: &str, message: &str) -> bool {
        &&& self.status == status
        &&& self.code@ == code@
        &&& self.message@ == message@
    }

    /// An error with the given status, code and message.
    pub fn new(status: u16, code: &'static str, message: &str) -> (e: Self)
        ensures
            e.status == status,
            e.code == code,
            e.message@ == message@,
    {
        ApiError { status, code, message: String::from_str(message) }
    }

    /// Invalid input (422, `invalid_request`).
    pub fn bad(message: &str) -> (e: Self)
        ensures
            e.status == STATUS_UNPROCESSABLE_ENTITY,
            e.code@ == "invalid_request"@,
            e.message@ == message@,
    {
        Self::new(STATUS_UNPROCESSABLE_ENTITY, "invalid_request", message)
    }

    /// A missing or inactive API key (401).
    pub fn unauthorized() -> (e: Self)
        ensures
            e.is(STATUS_UNAUTHORIZED, "unauthorized", "A valid API key is required"),
    {
        Self::new(STATUS_UNAUTHORIZED, "unauthorized", "A valid API key is required")
    }

    /// An unavailable resource (404).
    pub fn not_found() -> (e: Self)
        ensures
            e.is(STATUS_NOT_FOUND, "not_found", "Resource not found"),
    {
        Self::new(STATUS_NOT_FOUND, "not_found", "Resource not found")
    }

    /// An invalid state or a conflicting idempotency key (409).
    pub fn conflict(code: &'static str, message: &str) -> (e: Self)
        ensures
            e.status == STATUS_CONFLICT,
            e.code == code,
            e.message@ == message@,
    {
        Self::new(STATUS_CONFLICT, code, message)
    }

    /// An unexpected server failure (500). The client never sees the cause.
    pub fn internal() -> (e: Self)
        ensures
            e.is(STATUS_INTERNAL_SERVER_ERROR, "internal_error", "Internal server error"),
    {
        Self::new(STATUS_INTERNAL_SERVER_ERROR, "internal_error", "Internal server error")
    }

    /// A lookup's row, or `not_found` when there is none.
    pub fn require_found<T>(row: Option<T>) -> (r: Result<T, ApiError>)
        ensures
            row matches Some(v) ==> r == Ok::<T, ApiError>(v),
            row is None ==> (r matches Err(e) && e.is(STATUS_NOT_FOUND, "not_found", "Resource not found")),
    {
        match row {
            Some(v) => Ok(v),
            None => Err(Self::not_found()),
        }
    }

    /// `405 method_not_allowed`.
    pub fn method_not_allowed() -> (e: Self)
        ensures
            e.is(STATUS_METHOD_NOT_ALLOWED, "method_not_allowed", "Method not allowed"),
    {
        Self::new(STATUS_METHOD_NOT_ALLOWED, "method_not_allowed", "Method not allowed")
    }

    /// The text `"{code}: {message}"`.
    pub fn display(&self) -> (s: String)
        ensures
            s@ == self.code@ + ": "@ + self.message@,
    {
        String::from_str(self.code).concat(": ").concat(self.message.as_str())
    }
}

} // verus!
