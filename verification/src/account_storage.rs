//! `GET /v1/accounts/{did}/storage` — operator blob-storage metrics of one account: count,
//! bytes, the configured quota and the largest blob. (The share of the quota used is a float
//! and is computed where the answer is written out.)

use vstd::prelude::*;
use crate::error::{ApiError, ErrorCode, is_api_error};

verus! {

/// The account's largest blob.
#[derive(Debug)]
pub struct LargestBlob {
    pub cid: String,
    pub size: i64,
}

/// The storage readout, apart from the float share of the quota.
#[derive(Debug)]
pub struct StorageResponse {
    pub blob_count: i64,
    pub total_bytes: i64,
    pub quota_bytes: i64,
    pub largest_blob: Option<LargestBlob>,
}

/// Any failure gathering the figures.
pub fn storage_error() -> (e: ApiError)
    ensures
        is_api_error(e, ErrorCode::InternalError, "failed to load account storage"@),
{
    ApiError::new(ErrorCode::InternalError, "failed to load account storage")
}

/// The readout: the quota is the configured `u64` saturated to `i64::MAX`.
pub fn storage_response(blob_count: i64, total_bytes: i64, configured_quota: u64, largest: Option<(String, i64)>) -> (r: StorageResponse)
    ensures
        r.blob_count == blob_count,
        r.total_bytes == total_bytes,
        configured_quota <= i64::MAX ==> r.quota_bytes == configured_quota as i64,
        configured_quota > i64::MAX ==> r.quota_bytes == i64::MAX,
        match largest {
            None => r.largest_blob is None,
            Some(b) => r.largest_blob matches Some(l) && l.cid@ == b.0@ && l.size == b.1,
        },
{
    let quota_bytes = crate::admin_list_accounts::quota_bytes(configured_quota);
    let largest_blob = match largest {
        None => None,
        Some((cid, size)) => Some(LargestBlob { cid, size }),
    };
    StorageResponse { blob_count, total_bytes, quota_bytes, largest_blob }
}

} // verus!
