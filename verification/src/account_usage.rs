//! `GET /v1/accounts/{did}/usage` — operator usage metrics of one account, whatever its
//! activation state: records, commit revisions still represented among its blocks, blobs, bytes
//! stored, and when it was last active.

use vstd::prelude::*;
use crate::error::{ApiError, ErrorCode, fails_with, is_api_error};

verus! {

/// The usage readout.
#[derive(Debug)]
pub struct UsageResponse {
    pub records_count: i64,
    pub commits_count: i64,
    pub blobs_count: i64,
    /// Repo block bytes plus blob bytes.
    pub storage_bytes: i64,
    pub last_active: String,
}

/// Any failure gathering the figures.
pub fn usage_error() -> (e: ApiError)
    ensures
        is_api_error(e, ErrorCode::InternalError, "failed to load account usage"@),
{
    ApiError::new(ErrorCode::InternalError, "failed to load account usage")
}

/// The account must exist.
pub fn account_found<T>(row: Option<T>) -> (r: Result<T, ApiError>)
    ensures
        match row {
            Some(x) => r == Ok::<T, ApiError>(x),
            None => fails_with(r, ErrorCode::NotFound, "account not found"@),
        },
{
    match row {
        Some(x) => Ok(x),
        None => Err(ApiError::new(ErrorCode::NotFound, "account not found")),
    }
}

/// The most recent block write or blob upload; the account's creation time when it has neither.
pub fn last_active(latest: Option<String>, created_at: String) -> (r: String)
    ensures
        match latest {
            Some(t) => r@ == t@,
            None => r@ == created_at@,
        },
{
    match latest {
        Some(t) => t,
        None => created_at,
    }
}

/// The record count: 0 for an account without a repo root, else what the repo walk counted
/// (as `usize as i64` converts it).
pub fn records_count(walked: Option<usize>) -> (r: i64)
    ensures
        match walked {
            None => r == 0,
            Some(n) => r == n as i64,
        },
{
    match walked {
        None => 0,
        Some(n) => n as i64,
    }
}

/// The readout.
pub fn usage_response(
    records_count: i64,
    commits_count: i64,
    blobs_count: i64,
    block_bytes: i64,
    blob_bytes: i64,
    last_active: String,
) -> (r: UsageResponse)
    requires
        i64::MIN <= block_bytes + blob_bytes <= i64::MAX,
    ensures
        r.records_count == records_count,
        r.commits_count == commits_count,
        r.blobs_count == blobs_count,
        r.storage_bytes == block_bytes + blob_bytes,
        r.last_active@ == last_active@,
{
    UsageResponse { records_count, commits_count, blobs_count, storage_bytes: block_bytes + blob_bytes, last_active }
}

} // verus!
