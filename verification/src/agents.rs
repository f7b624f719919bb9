//! Per-account agent management (`/v1/agents`): listing, revoking and auditing the agent
//! identities bound to the caller, and previewing what a claim would grant.
//!
//! An unknown registration id and one bound to a different account are the same 404, so the
//! routes are no existence oracle for other accounts' registrations.

use vstd::prelude::*;
use crate::agent_model::{
    AgentIdentityRow, AgentIdentityStatus, ClaimAttemptRow, OwnerAuthError, attempt_is_pending,
    registration_type_word, identity_status_word,
};
use crate::error::{ApiError, ErrorCode, fails_with};
use crate::paging::{clamp_limit, clamp_spec, next_key_cursor, parse_i64, parse_i64_spec, decimal_string};
use crate::text::str_eq;

verus! {

/// The audit page size when the query names none.
pub const AUDIT_PAGE_DEFAULT: i64 = 50;

/// The largest audit page.
pub const AUDIT_PAGE_MAX: i64 = 100;

/// One agent identity as the wallet lists it.
#[derive(Debug)]
pub struct AgentView {
    pub registration_id: String,
    pub registration_type: &'static str,
    pub issuer: Option<String>,
    pub subject: Option<String>,
    pub scopes: Vec<String>,
    pub status: &'static str,
    pub created_at: String,
    pub updated_at: String,
    pub last_used_at: Option<String>,
}

/// `GET /v1/agents` answer.
#[derive(Debug)]
pub struct ListAgentsResponse {
    pub agents: Vec<AgentView>,
}

/// `POST /v1/agents/{registration_id}/revoke` answer.
#[derive(Debug)]
pub struct RevokeAgentResponse {
    pub registration_id: String,
    pub status: &'static str,
}

/// `GET /v1/agents/{registration_id}/audit` query.
#[derive(Debug)]
pub struct AuditQuery {
    pub cursor: Option<String>,
    pub limit: Option<i64>,
}

/// `POST /v1/agents/claim-preview` body.
#[derive(Debug)]
pub struct ClaimPreviewRequest {
    pub user_code: Option<String>,
}

/// What confirming the claim would approve.
#[derive(Debug)]
pub struct ClaimPreviewResponse {
    pub registration_id: String,
    pub registration_type: &'static str,
    pub issuer: Option<String>,
    pub subject: Option<String>,
    pub scopes: Vec<String>,
    pub user_code_expires_at: String,
}

/// Map the owner guard's refusal into this surface's errors: the guard's own error when no
/// credential authenticated, 403 for agent-derived tokens, 401 for a credential below full access.
pub fn authenticate_owner(result: Result<String, OwnerAuthError>) -> (r: Result<String, ApiError>)
    ensures
        result is Ok <==> r is Ok,
        result is Ok ==> r->Ok_0@ == result->Ok_0@,
        result matches Err(OwnerAuthError::Unauthenticated(e)) ==> r is Err && r->Err_0 == e,
        result matches Err(OwnerAuthError::AgentDerived) ==> fails_with(
            r,
            ErrorCode::InsufficientScope,
            "this operation is not available to agent-derived credentials"@,
        ),
        result matches Err(OwnerAuthError::NotFullAccess) ==> fails_with(
            r,
            ErrorCode::InvalidToken,
            "a session or full-access token is required"@,
        ),
{
    match result {
        Ok(did) => Ok(did),
        Err(OwnerAuthError::Unauthenticated(e)) => Err(e),
        Err(OwnerAuthError::AgentDerived) => Err(
            ApiError::new(
                ErrorCode::InsufficientScope,
                "this operation is not available to agent-derived credentials",
            ),
        ),
        Err(OwnerAuthError::NotFullAccess) => Err(
            ApiError::new(ErrorCode::InvalidToken, "a session or full-access token is required"),
        ),
    }
}

/// `did` owns `identity`: as the account it acts as, or as the parent of a sovereign child.
pub open spec fn owns(identity: AgentIdentityRow, did: Seq<char>) -> bool {
    (identity.did is Some && identity.did->0@ == did) || (identity.parent_did is Some
        && identity.parent_did->0@ == did)
}

fn opt_eq(a: &Option<String>, b: &str) -> (r: bool)
    ensures
        r == (a is Some && a->0@ == b@),
{
    match a {
        Some(x) => str_eq(x.as_str(), b),
        None => false,
    }
}

/// Who owns a registration: the account it is bound to, and the parent of a sovereign child —
/// and nobody else. An owner is never told their own agent is unknown.
pub proof fn an_agent_is_owned_by_its_account_and_parent(identity: AgentIdentityRow, did: Seq<char>)
    ensures
        (identity.did matches Some(d) && d@ == did) ==> owns(identity, did),
        (identity.parent_did matches Some(p) && p@ == did) ==> owns(identity, did),
        owns(identity, did) ==> (identity.did matches Some(d) && d@ == did) || (identity.parent_did matches Some(
            p,
        ) && p@ == did),
{
}

/// Load a registration and require `did` to own it. Unknown and foreign registrations are the
/// same uniform 404.
pub fn owned_identity(identity: Option<AgentIdentityRow>, did: &str) -> (r: Result<AgentIdentityRow, ApiError>)
    ensures
        r is Ok <==> (identity is Some && owns(identity->0, did@)),
        r is Ok ==> r->Ok_0 == identity->0,
        r is Err ==> fails_with(r, ErrorCode::NotFound, "unknown agent registration"@),
        identity matches Some(i) && i.did matches Some(d) && d@ == did@ ==> r is Ok,
        identity matches Some(i) && i.parent_did matches Some(p) && p@ == did@ ==> r is Ok,
        identity matches Some(i) && !(i.did matches Some(d) && d@ == did@) && !(i.parent_did matches Some(p)
            && p@ == did@) ==> r is Err,
{
    match identity {
        None => Err(ApiError::new(ErrorCode::NotFound, "unknown agent registration")),
        Some(identity) => {
            if opt_eq(&identity.did, did) || opt_eq(&identity.parent_did, did) {
                Ok(identity)
            } else {
                Err(ApiError::new(ErrorCode::NotFound, "unknown agent registration"))
            }
        },
    }
}

/// The revocation answer: always `revoked` (a repeat revoke is idempotent).
pub fn revoke_agent_response(registration_id: String) -> (r: RevokeAgentResponse)
    ensures
        r.registration_id@ == registration_id@,
        r.status@ == "revoked"@,
{
    RevokeAgentResponse { registration_id, status: "revoked" }
}

/// The audit listing's page request: the clamped page size and the cursor's sequence number.
#[derive(Debug)]
pub struct AuditPage {
    pub limit: i64,
    pub before_seq: Option<i64>,
}

/// Read the audit query: `limit` defaults to 50 and is clamped to `1..=100`; the cursor must
/// parse as an `i64` (else 400 `malformed cursor`).
pub fn audit_page(query: &AuditQuery) -> (r: Result<AuditPage, ApiError>)
    ensures
        r is Ok <==> (query.cursor is None || parse_i64_spec(query.cursor->0@) is Some),
        r is Err ==> fails_with(r, ErrorCode::InvalidClaim, "malformed cursor"@),
        r matches Ok(p) ==> p.limit == clamp_spec(
            match query.limit {
                Some(l) => l as int,
                None => 50,
            },
            100,
        ),
        r matches Ok(p) ==> p.before_seq == match query.cursor {
            Some(c) => parse_i64_spec(c@),
            None => None,
        },
{
    let limit = clamp_limit(query.limit, AUDIT_PAGE_DEFAULT, AUDIT_PAGE_MAX);
    let before_seq = match &query.cursor {
        None => None,
        Some(raw) => match parse_i64(raw.as_str()) {
            Some(v) => Some(v),
            None => return Err(ApiError::new(ErrorCode::InvalidClaim, "malformed cursor")),
        },
    };
    Ok(AuditPage { limit, before_seq })
}

/// The next audit cursor: the last row's sequence number on a full page.
pub fn audit_cursor(seqs: &[i64], limit: i64) -> (r: Option<String>)
    ensures
        r is Some <==> (seqs@.len() == limit && seqs@.len() > 0),
        r matches Some(c) ==> c@ == decimal_string(seqs@.last() as int),
{
    next_key_cursor(seqs, limit)
}

/// The claim preview's checks, in order: a non-empty `userCode` (400), a pending attempt for it,
/// an existing active identity, bound (if at all) to the caller — every failure after the first
/// is the same 404.
pub fn claim_preview_check(
    user_code: Option<&str>,
    attempt: Option<ClaimAttemptRow>,
    identity: Option<AgentIdentityRow>,
    caller: &str,
) -> (r: Result<(ClaimAttemptRow, AgentIdentityRow), ApiError>)
    ensures
        (user_code is None || user_code->0@.len() == 0) ==> fails_with(
            r,
            ErrorCode::InvalidClaim,
            "missing required field: userCode"@,
        ),
        r is Ok <==> (user_code is Some && user_code->0@.len() > 0 && attempt is Some
            && attempt_is_pending(attempt->0) && identity is Some && identity->0.status
            == AgentIdentityStatus::Active && (identity->0.did is Some ==> identity->0.did->0@
            == caller@)),
        r is Ok ==> (r->Ok_0).0 == attempt->0 && (r->Ok_0).1 == identity->0,
        (user_code is Some && user_code->0@.len() > 0 && r is Err) ==> fails_with(
            r,
            ErrorCode::NotFound,
            "unknown or expired code"@,
        ),
{
    match user_code {
        None => return Err(ApiError::new(ErrorCode::InvalidClaim, "missing required field: userCode")),
        Some(c) => if c.is_empty() {
            return Err(ApiError::new(ErrorCode::InvalidClaim, "missing required field: userCode"));
        },
    }
    let attempt = match attempt {
        Some(a) => if a.is_pending() {
            a
        } else {
            return Err(ApiError::new(ErrorCode::NotFound, "unknown or expired code"));
        },
        None => return Err(ApiError::new(ErrorCode::NotFound, "unknown or expired code")),
    };
    let identity = match identity {
        Some(i) => i,
        None => return Err(ApiError::new(ErrorCode::NotFound, "unknown or expired code")),
    };
    if identity.status != AgentIdentityStatus::Active {
        return Err(ApiError::new(ErrorCode::NotFound, "unknown or expired code"));
    }
    if let Some(bound) = &identity.did {
        if !str_eq(bound.as_str(), caller) {
            return Err(ApiError::new(ErrorCode::NotFound, "unknown or expired code"));
        }
    }
    Ok((attempt, identity))
}

/// The preview answer for a checked attempt and identity, with the scopes confirmation would grant
/// and the attempt's expiry as rendered for the wire.
pub fn claim_preview_response(identity: AgentIdentityRow, scopes: Vec<String>, user_code_expires_at: String) -> (r:
    ClaimPreviewResponse)
    ensures
        r.registration_id@ == identity.id@,
        r.registration_type@ == registration_type_word(identity.registration_type),
        r.issuer == identity.issuer,
        r.subject == identity.subject,
        r.scopes@ == scopes@,
        r.user_code_expires_at@ == user_code_expires_at@,
{
    let registration_type = identity.registration_type.as_str();
    ClaimPreviewResponse {
        registration_id: identity.id,
        registration_type,
        issuer: identity.issuer,
        subject: identity.subject,
        scopes,
        user_code_expires_at,
    }
}

/// One listed agent: the identity's facts with its scopes and rendered timestamps.
pub fn agent_view(
    identity: AgentIdentityRow,
    scopes: Vec<String>,
    created_at: String,
    updated_at: String,
    last_used_at: Option<String>,
) -> (r: AgentView)
    ensures
        r.registration_id@ == identity.id@,
        r.registration_type@ == registration_type_word(identity.registration_type),
        r.status@ == identity_status_word(identity.status),
        r.issuer == identity.issuer,
        r.subject == identity.subject,
        r.scopes@ == scopes@,
        r.created_at@ == created_at@,
        r.updated_at@ == updated_at@,
        r.last_used_at == last_used_at,
{
    let registration_type = identity.registration_type.as_str();
    let status = identity.status.as_str();
    AgentView {
        registration_id: identity.id,
        registration_type,
        issuer: identity.issuer,
        subject: identity.subject,
        scopes,
        status,
        created_at,
        updated_at,
        last_used_at,
    }
}

} // verus!
