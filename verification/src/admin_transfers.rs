//! Operator visibility into in-flight device transfers (`GET /v1/admin/transfers`, newest first,
//! paged on the `(created_at, id)` keyset, never carrying the transfer code) and interruption of
//! one (`POST /v1/admin/transfers/{id}/cancel`).

use vstd::prelude::*;
use crate::error::{ApiError, ErrorCode, fails_with, is_api_error};
use crate::text::{owned, push_str, split_once_char, split_once_spec};

verus! {

/// Largest page size.
pub const MAX_LIST_LIMIT: u32 = 200;

/// The page size a request without `limit` gets.
pub fn default_list_limit() -> (r: u32)
    ensures
        r == 50,
{
    50
}

/// Query parameters.
#[derive(Debug)]
pub struct ListTransfersParams {
    pub limit: u32,
    pub cursor: Option<String>,
}

/// One in-flight transfer.
#[derive(Debug)]
pub struct TransferView {
    pub id: String,
    pub did: String,
    pub handle: Option<String>,
    pub status: String,
    pub created_at: String,
    pub expires_at: String,
    pub accepted_at: Option<String>,
    pub accepted_device_platform: Option<String>,
}

/// A page of transfers.
#[derive(Debug)]
pub struct ListTransfersResponse {
    pub transfers: Vec<TransferView>,
    pub cursor: Option<String>,
}

/// A cancelled transfer.
#[derive(Debug)]
pub struct CancelTransferResponse {
    pub id: String,
    pub status: &'static str,
    /// Whether an accepted target device's credential was tombstoned by this cancel.
    pub revoked_device_credential: bool,
}

/// The page size must be 1 to 200.
pub fn check_list_limit(limit: u32) -> (r: Result<(), ApiError>)
    ensures
        1 <= limit <= 200 ==> r is Ok,
        !(1 <= limit <= 200) ==> fails_with(r, ErrorCode::InvalidRequest, "limit must be between 1 and 200"@),
{
    if limit == 0 || limit > MAX_LIST_LIMIT {
        Err(ApiError::new(ErrorCode::InvalidRequest, "limit must be between 1 and 200"))
    } else {
        Ok(())
    }
}

/// The keyset a cursor names: `created_at|id`, split at the first `|` (a timestamp never holds
/// one); a cursor without it is malformed.
pub fn parse_cursor(cursor: Option<&str>) -> (r: Result<Option<(String, String)>, ApiError>)
    ensures
        match cursor {
            None => r matches Ok(None),
            Some(c) => match split_once_spec(c@, '|') {
                Some(p) => r matches Ok(Some(k)) && k.0@ == p.0 && k.1@ == p.1,
                None => fails_with(r, ErrorCode::InvalidRequest, "malformed cursor"@),
            },
        },
{
    match cursor {
        None => Ok(None),
        Some(c) => match split_once_char(c, '|') {
            Some(p) => Ok(Some(p)),
            None => Err(ApiError::new(ErrorCode::InvalidRequest, "malformed cursor")),
        },
    }
}

/// Failure reading the page.
pub fn list_error() -> (e: ApiError)
    ensures
        is_api_error(e, ErrorCode::InternalError, "failed to list transfers"@),
{
    ApiError::new(ErrorCode::InternalError, "failed to list transfers")
}

/// The cursor of the next page: `created_at|id` of the last row, when the page is full.
pub fn transfers_cursor(keys: &[(String, String)], limit: u32) -> (r: Option<String>)
    ensures
        r is Some <==> (keys@.len() == limit && keys@.len() > 0),
        r matches Some(c) ==> c@ == keys@.last().0@ + "|"@ + keys@.last().1@,
{
    if keys.len() == limit as usize && keys.len() > 0 {
        let last = &keys[keys.len() - 1];
        let mut c = owned(last.0.as_str());
        push_str(&mut c, "|");
        push_str(&mut c, last.1.as_str());
        Some(c)
    } else {
        None
    }
}

/// What cancelling a transfer found.
#[derive(Debug)]
pub enum CancelOutcome {
    /// Interrupted now; whether an accepted device's credential was tombstoned with it.
    Cancelled { revoked_device_credential: bool },
    AlreadyCancelled,
    /// Already complete or expired: nothing in flight.
    Terminal { status: String },
    NotFound,
}

/// The audit detail of a real interruption.
pub open spec fn cancel_detail_spec(revoked: bool) -> Seq<char> {
    if revoked {
        "{\"revokedDeviceCredential\":true}"@
    } else {
        "{\"revokedDeviceCredential\":false}"@
    }
}

/// The answer to a cancel, and the audit detail to record with it (only a real interruption is
/// audited; an idempotent repeat changed nothing). A terminal transfer is a 409 (pretending
/// otherwise would hide a swap that already happened), an unknown one a 404.
pub fn cancel_answer(transfer_id: String, outcome: CancelOutcome) -> (r: Result<(CancelTransferResponse, Option<String>), ApiError>)
    ensures
        match outcome {
            CancelOutcome::Cancelled { revoked_device_credential: rv } => r matches Ok(p) && p.0.id@
                == transfer_id@ && p.0.status@ == "cancelled"@ && p.0.revoked_device_credential == rv
                && p.1 is Some && p.1->0@ == cancel_detail_spec(rv),
            CancelOutcome::AlreadyCancelled => r matches Ok(p) && p.0.id@ == transfer_id@
                && p.0.status@ == "cancelled"@ && !p.0.revoked_device_credential && p.1 is None,
            CancelOutcome::Terminal { status } => fails_with(
                r,
                ErrorCode::Conflict,
                "transfer is already "@ + status@,
            ),
            CancelOutcome::NotFound => fails_with(r, ErrorCode::NotFound, "unknown transfer"@),
        },
{
    match outcome {
        CancelOutcome::Cancelled { revoked_device_credential } => {
            let detail = if revoked_device_credential {
                owned("{\"revokedDeviceCredential\":true}")
            } else {
                owned("{\"revokedDeviceCredential\":false}")
            };
            Ok(
                (
                    CancelTransferResponse { id: transfer_id, status: "cancelled", revoked_device_credential },
                    Some(detail),
                ),
            )
        },
        CancelOutcome::AlreadyCancelled => Ok(
            (
                CancelTransferResponse { id: transfer_id, status: "cancelled", revoked_device_credential: false },
                None,
            ),
        ),
        CancelOutcome::Terminal { status } => {
            let mut m = owned("transfer is already ");
            push_str(&mut m, status.as_str());
            Err(ApiError::with_message(ErrorCode::Conflict, m))
        },
        CancelOutcome::NotFound => Err(ApiError::new(ErrorCode::NotFound, "unknown transfer")),
    }
}

/// Failure cancelling.
pub fn cancel_error() -> (e: ApiError)
    ensures
        is_api_error(e, ErrorCode::InternalError, "failed to cancel transfer"@),
{
    ApiError::new(ErrorCode::InternalError, "failed to cancel transfer")
}

} // verus!
