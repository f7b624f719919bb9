//! `GET /v1/admin/recovery-releases` — every account with an in-flight escrow release, newest
//! request first: when it was requested, when it becomes collectable, and whether it already is.
//! The share itself is never returned.

use vstd::prelude::*;
use crate::error::{ApiError, ErrorCode, is_api_error};

verus! {

/// One pending release.
#[derive(Debug)]
pub struct PendingReleaseView {
    pub did: String,
    pub requested_at: String,
    pub available_at: Option<String>,
    /// The delay window has elapsed: the share is collectable now.
    pub available: bool,
}

/// The list of pending releases.
#[derive(Debug)]
pub struct RecoveryReleasesResponse {
    pub releases: Vec<PendingReleaseView>,
}

/// A pending release as stored.
#[derive(Debug)]
pub struct PendingReleaseRow {
    pub did: String,
    pub release_requested_at: String,
    pub release_pending_until: Option<String>,
    pub available: bool,
}

/// Failure reading the releases.
pub fn list_error() -> (e: ApiError)
    ensures
        is_api_error(e, ErrorCode::InternalError, "failed to list pending recovery releases"@),
{
    ApiError::new(ErrorCode::InternalError, "failed to list pending recovery releases")
}

/// The view of a stored release.
pub fn release_view(row: PendingReleaseRow) -> (v: PendingReleaseView)
    ensures
        v.did@ == row.did@,
        v.requested_at@ == row.release_requested_at@,
        v.available_at == row.release_pending_until,
        v.available == row.available,
{
    PendingReleaseView {
        did: row.did,
        requested_at: row.release_requested_at,
        available_at: row.release_pending_until,
        available: row.available,
    }
}

} // verus!
