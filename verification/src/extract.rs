//! Request extractors whose rejections use the service's error envelope.

use vstd::prelude::*;
use crate::error::ApiError;

verus! {

/// A JSON request body.
pub struct ApiJson<T>(pub T);

/// Path parameters.
pub struct ApiPath<T>(pub T);

/// Query parameters.
pub struct ApiQuery<T>(pub T);

impl<T> ApiJson<T> {
    /// A body that does not decode keeps the rejection's status and text under `invalid_json`.
    pub fn rejection(status: u16, detail: &str) -> (e: ApiError)
        ensures
            e.status == status,
            e.code@ == "invalid_json"@,
            e.message@ == detail@,
    {
        ApiError::new(status, "invalid_json", detail)
    }
}

impl<T> ApiPath<T> {
    /// A path that does not decode keeps the rejection's status and text under `invalid_path`.
    pub fn rejection(status: u16, detail: &str) -> (e: ApiError)
        ensures
            e.status == status,
            e.code@ == "invalid_path"@,
            e.message@ == detail@,
    {
        ApiError::new(status, "invalid_path", detail)
    }
}

impl<T> ApiQuery<T> {
    /// A query that does not decode keeps the rejection's status and text under `invalid_query`.
    pub fn rejection(status: u16, detail: &str) -> (e: ApiError)
        ensures
            e.status == status,
            e.code@ == "invalid_query"@,
            e.message@ == detail@,
    {
        ApiError::new(status, "invalid_query", detail)
    }
}

} // verus!
