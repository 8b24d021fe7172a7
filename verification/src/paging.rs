//! Pagination and event cursors of list endpoints.

use vstd::prelude::*;
use crate::error::{ApiError, STATUS_UNPROCESSABLE_ENTITY};

verus! {

/// The page that `page` chooses: the limit defaults to 50 and the offset to 0.
pub open spec fn page_values(limit: Option<i64>, offset: Option<i64>) -> (i64, i64) {
    (
        match limit { Some(l) => l, None => 50 },
        match offset { Some(o) => o, None => 0 },
    )
}

/// A page is valid when its limit lies in 1..=100 and its offset is nonnegative.
pub open spec fn page_valid(limit: i64, offset: i64) -> bool {
    1 <= limit <= 100 && offset >= 0
}

/// Resolves `limit` and `offset` query parameters.
pub fn page(limit: Option<i64>, offset: Option<i64>) -> (r: Result<(i64, i64), ApiError>)
    ensures
        page_valid(page_values(limit, offset).0, page_values(limit, offset).1)
            ==> r == Ok::<(i64, i64), ApiError>(page_values(limit, offset)),
        !page_valid(page_values(limit, offset).0, page_values(limit, offset).1) ==> (r matches Err(e)
            && e.is(STATUS_UNPROCESSABLE_ENTITY, "invalid_request",
                "limit must be 1..100 and offset nonnegative")),
{
    let limit = match limit { Some(l) => l, None => 50 };
    let offset = match offset { Some(o) => o, None => 0 };
    if !(1 <= limit && limit <= 100) || offset < 0 {
        return Err(ApiError::bad("limit must be 1..100 and offset nonnegative"));
    }
    Ok((limit, offset))
}

/// Resolves the event cursor: `after_id` defaults to 0 and must be
/// nonnegative, `limit` defaults to 50 and must lie in 1..=100.
pub fn event_cursor(after_id: Option<i64>, limit: Option<i64>) -> (r: Result<(i64, i64), ApiError>)
    ensures
        ({
            let a = match after_id { Some(a) => a, None => 0 };
            let l = match limit { Some(l) => l, None => 50 };
            &&& (1 <= l <= 100 && a >= 0) ==> r == Ok::<(i64, i64), ApiError>((a, l))
            &&& !(1 <= l <= 100 && a >= 0) ==> (r matches Err(e) && e.is(
                STATUS_UNPROCESSABLE_ENTITY,
                "invalid_request",
                "Invalid event cursor or limit",
            ))
        }),
{
    let l = match limit { Some(l) => l, None => 50 };
    let a = match after_id { Some(a) => a, None => 0 };
    if !(1 <= l && l <= 100) || a < 0 {
        return Err(ApiError::bad("Invalid event cursor or limit"));
    }
    Ok((a, l))
}

} // verus!
