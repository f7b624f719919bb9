//! The operator's per-space moderation surface: the page of every space this host stores
//! anything about, and a reversible takedown of one space that destroys nothing. The takedown
//! answer restates the state the row holds after the change, not the request.

use vstd::prelude::*;
use crate::error::{ApiError, ErrorCode, fails_with, is_api_error};
use crate::paging::{clamp_limit, clamp_spec};
use crate::text::{owned, push_str, str_eq};

verus! {

/// Page size without a `limit`.
pub const DEFAULT_LIMIT: i64 = 50;

/// Largest page size.
pub const MAX_LIMIT: i64 = 100;

/// Query parameters of the space listing.
#[derive(Debug)]
pub struct ListSpacesParams {
    pub limit: Option<i64>,
    pub cursor: Option<String>,
    pub status: Option<String>,
}

/// One stored space as the operator sees it.
#[derive(Debug)]
pub struct HostedSpaceEntry {
    pub uri: String,
    pub authority_did: String,
    /// Whether this host is the space's authority (it holds its configuration).
    pub local_authority: bool,
    pub created_at: String,
    pub deleted_at: Option<String>,
    pub takendown_at: Option<String>,
    pub repo_count: i64,
    pub record_count: i64,
}

/// A page of spaces.
#[derive(Debug)]
pub struct ListSpacesResponse {
    pub spaces: Vec<HostedSpaceEntry>,
    pub cursor: Option<String>,
}

/// `POST /v1/admin/spaces/takedown` body.
#[derive(Debug)]
pub struct SpaceTakedownInput {
    pub uri: String,
    pub applied: bool,
}

/// The resulting takedown state of the space.
#[derive(Debug)]
pub struct SpaceTakedownResponse {
    pub uri: String,
    pub applied: bool,
    pub takendown_at: Option<String>,
}

/// The status filter: none lists every space, `takendown` only refused ones, and anything else is
/// a 400 naming it (a typo is never an empty page).
pub fn takedown_filter(status: Option<&str>) -> (r: Result<bool, ApiError>)
    ensures
        match status {
            None => r == Ok::<bool, ApiError>(false),
            Some(s) => if s@ == "takendown"@ {
                r == Ok::<bool, ApiError>(true)
            } else {
                fails_with(r, ErrorCode::InvalidRequest, "unknown status filter: "@ + s@)
            },
        },
{
    match status {
        None => Ok(false),
        Some(s) => if str_eq(s, "takendown") {
            Ok(true)
        } else {
            let mut m = owned("unknown status filter: ");
            push_str(&mut m, s);
            Err(ApiError::with_message(ErrorCode::InvalidRequest, m))
        },
    }
}

/// The page size: `limit` (default 50) clamped to 1..=100.
pub fn list_limit(limit: Option<i64>) -> (r: i64)
    ensures
        r == clamp_spec(
            match limit {
                Some(l) => l as int,
                None => 50,
            },
            100,
        ),
{
    clamp_limit(limit, DEFAULT_LIMIT, MAX_LIMIT)
}

/// One stored space as the listing query returns it (`has_policy`: this host holds its
/// configuration).
#[derive(Debug)]
pub struct SpaceRow {
    pub uri: String,
    pub authority_did: String,
    pub has_policy: bool,
    pub created_at: String,
    pub deleted_at: Option<String>,
    pub takendown_at: Option<String>,
    pub repo_count: i64,
    pub record_count: i64,
}

/// The listing entry of a row: this host is the local authority exactly when it holds the
/// space's configuration.
pub fn space_entry(row: SpaceRow) -> (e: HostedSpaceEntry)
    ensures
        e.uri@ == row.uri@,
        e.authority_did@ == row.authority_did@,
        e.local_authority == row.has_policy,
        e.created_at@ == row.created_at@,
        e.deleted_at == row.deleted_at,
        e.takendown_at == row.takendown_at,
        e.repo_count == row.repo_count,
        e.record_count == row.record_count,
{
    HostedSpaceEntry {
        uri: row.uri,
        authority_did: row.authority_did,
        local_authority: row.has_policy,
        created_at: row.created_at,
        deleted_at: row.deleted_at,
        takendown_at: row.takendown_at,
        repo_count: row.repo_count,
        record_count: row.record_count,
    }
}

/// The cursor after a page of spaces: the last URI when the page is full.
pub fn spaces_cursor(uris: &[String], limit: i64) -> (r: Option<String>)
    ensures
        r is Some <==> (uris@.len() == limit && uris@.len() > 0),
        r matches Some(c) ==> c@ == uris@.last()@,
{
    crate::paging::next_text_cursor(uris, limit)
}

/// Failure reading the page.
pub fn list_error() -> (e: ApiError)
    ensures
        is_api_error(e, ErrorCode::InternalError, "failed to list spaces"@),
{
    ApiError::new(ErrorCode::InternalError, "failed to list spaces")
}

/// A takedown body that is not the expected JSON.
pub fn invalid_body() -> (e: ApiError)
    ensures
        is_api_error(e, ErrorCode::InvalidRequest, "invalid request body"@),
{
    ApiError::new(ErrorCode::InvalidRequest, "invalid request body")
}

/// Any database failure during a takedown.
pub fn takedown_error() -> (e: ApiError)
    ensures
        is_api_error(e, ErrorCode::InternalError, "failed to update space takedown"@),
{
    ApiError::new(ErrorCode::InternalError, "failed to update space takedown")
}

/// The space must be stored here: this host cannot refuse to serve a space it holds nothing for.
pub fn space_present(found: bool) -> (r: Result<(), ApiError>)
    ensures
        found ==> r is Ok,
        !found ==> fails_with(r, ErrorCode::NotFound, "space not found"@),
{
    if found {
        Ok(())
    } else {
        Err(ApiError::new(ErrorCode::NotFound, "space not found"))
    }
}

/// The audit action of a takedown request.
#[derive(Clone, Copy, Debug, PartialEq, Eq, Structural)]
pub enum SpaceAuditAction {
    SpaceTakedown,
    SpaceRestore,
}

/// Applying is a takedown, clearing a restore.
pub fn takedown_action(applied: bool) -> (a: SpaceAuditAction)
    ensures
        applied ==> a == SpaceAuditAction::SpaceTakedown,
        !applied ==> a == SpaceAuditAction::SpaceRestore,
{
    if applied {
        SpaceAuditAction::SpaceTakedown
    } else {
        SpaceAuditAction::SpaceRestore
    }
}

/// The answer: the takedown state read back after the change (an already applied takedown keeps
/// its original time), applied exactly when a takedown time is set.
pub fn takedown_response(uri: String, takendown_at: Option<String>) -> (r: SpaceTakedownResponse)
    ensures
        r.uri@ == uri@,
        r.applied == takendown_at is Some,
        r.takendown_at == takendown_at,
{
    let applied = takendown_at.is_some();
    SpaceTakedownResponse { uri, applied, takendown_at }
}

} // verus!
