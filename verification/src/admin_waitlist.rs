//! `GET /v1/admin/waitlist` — the operator's readout of the interest-signup waitlist: a
//! newest-first page on the row id plus the unpaged total. It stays readable after the public
//! signup endpoint is switched off.

use vstd::prelude::*;
use crate::error::{ApiError, ErrorCode, fails_with, is_api_error};
use crate::paging::{clamp_limit, clamp_spec, decimal_string, next_key_cursor, parse_i64, parse_i64_spec};

verus! {

/// Page size without a `limit`.
pub const DEFAULT_LIMIT: i64 = 50;

/// Largest page size.
pub const MAX_LIMIT: i64 = 100;

/// Query parameters.
#[derive(Debug)]
pub struct WaitlistQuery {
    pub limit: Option<i64>,
    pub cursor: Option<String>,
}

/// One signup.
#[derive(Debug)]
pub struct WaitlistSignupView {
    pub email: String,
    pub handle: Option<String>,
    pub created_at: String,
}

/// A page of signups and the total on the list.
#[derive(Debug)]
pub struct WaitlistResponse {
    pub signups: Vec<WaitlistSignupView>,
    pub total: i64,
    pub cursor: Option<String>,
}

/// The row id the page starts before: the cursor parsed as an `i64`, else a 400.
pub fn before_rowid(cursor: Option<&str>) -> (r: Result<Option<i64>, ApiError>)
    ensures
        match cursor {
            None => r == Ok::<Option<i64>, ApiError>(None),
            Some(c) => match parse_i64_spec(c@) {
                Some(v) => r == Ok::<Option<i64>, ApiError>(Some(v)),
                None => fails_with(r, ErrorCode::InvalidRequest, "malformed cursor"@),
            },
        },
{
    match cursor {
        None => Ok(None),
        Some(c) => match parse_i64(c) {
            Some(v) => Ok(Some(v)),
            None => Err(ApiError::new(ErrorCode::InvalidRequest, "malformed cursor")),
        },
    }
}

/// The page size: `limit` (default 50) clamped to 1..=100.
pub fn list_limit(limit: Option<i64>) -> (r: i64)
    ensures
        r == clamp_spec(
            match limit {
                Some(l) => l as int,
                None => 50,
            },
            100,
        ),
{
    clamp_limit(limit, DEFAULT_LIMIT, MAX_LIMIT)
}

/// Failure reading the list or its total.
pub fn list_error() -> (e: ApiError)
    ensures
        is_api_error(e, ErrorCode::InternalError, "failed to list waitlist"@),
{
    ApiError::new(ErrorCode::InternalError, "failed to list waitlist")
}

/// The cursor after a page of signups with row ids `rowids`: the last one, in decimal, when the
/// page is full.
pub fn waitlist_cursor(rowids: &[i64], limit: i64) -> (r: Option<String>)
    ensures
        r is Some <==> (rowids@.len() == limit && rowids@.len() > 0),
        r matches Some(c) ==> c@ == decimal_string(rowids@.last() as int),
{
    next_key_cursor(rowids, limit)
}

} // verus!
