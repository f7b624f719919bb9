//! `GET /v1/admin/audit` — the server-wide log of privileged admin actions, newest first, paged
//! on the insertion sequence, filtered exactly by action, actor and subject.

use vstd::prelude::*;
use crate::boundary::{json_valid, json_valid_of};
use crate::error::{ApiError, ErrorCode, fails_with};
use crate::paging::{clamp_limit, clamp_spec, decimal_string, next_key_cursor, parse_i64, parse_i64_spec};

verus! {

/// Page size without a `limit`.
pub const DEFAULT_LIMIT: i64 = 50;

/// Largest page size.
pub const MAX_LIMIT: i64 = 100;

/// Query parameters.
#[derive(Debug)]
pub struct AuditQuery {
    pub limit: Option<i64>,
    pub cursor: Option<String>,
    pub action: Option<String>,
    pub actor: Option<String>,
    pub subject: Option<String>,
}

/// How a stored audit detail is answered with: as the JSON structure it holds, or, when it
/// somehow is not JSON, verbatim as a string.
#[derive(Debug)]
pub enum AuditDetail {
    Structured(String),
    Verbatim(String),
}

/// One audit event.
#[derive(Debug)]
pub struct AuditEventView {
    pub id: String,
    pub actor: String,
    pub action: String,
    pub subject: Option<String>,
    pub outcome: String,
    pub detail: Option<AuditDetail>,
    pub created_at: String,
}

/// A page of events.
#[derive(Debug)]
pub struct AuditListResponse {
    pub events: Vec<AuditEventView>,
    pub cursor: Option<String>,
}

/// The action filter, already matched against the action vocabulary (`Some(None)`: the word is
/// not in it). A typo must not read as "no such events", so an unknown word is a 400.
pub fn action_filter<A>(parsed: Option<Option<A>>) -> (r: Result<Option<A>, ApiError>)
    ensures
        match parsed {
            None => r == Ok::<Option<A>, ApiError>(None),
            Some(Some(a)) => r == Ok::<Option<A>, ApiError>(Some(a)),
            Some(None) => fails_with(r, ErrorCode::InvalidRequest, "unknown action filter"@),
        },
{
    match parsed {
        None => Ok(None),
        Some(Some(a)) => Ok(Some(a)),
        Some(None) => Err(ApiError::new(ErrorCode::InvalidRequest, "unknown action filter")),
    }
}

/// The sequence the page starts before: the cursor parsed as an `i64`, else a 400.
pub fn before_seq(cursor: Option<&str>) -> (r: Result<Option<i64>, ApiError>)
    ensures
        match cursor {
            None => r == Ok::<Option<i64>, ApiError>(None),
            Some(c) => match parse_i64_spec(c@) {
                Some(v) => r == Ok::<Option<i64>, ApiError>(Some(v)),
                None => fails_with(r, ErrorCode::InvalidRequest, "malformed cursor"@),
            },
        },
{
    match cursor {
        None => Ok(None),
        Some(c) => match parse_i64(c) {
            Some(v) => Ok(Some(v)),
            None => Err(ApiError::new(ErrorCode::InvalidRequest, "malformed cursor")),
        },
    }
}

/// The page size: `limit` (default 50) clamped to 1..=100.
pub fn list_limit(limit: Option<i64>) -> (r: i64)
    ensures
        r == clamp_spec(
            match limit {
                Some(l) => l as int,
                None => 50,
            },
            100,
        ),
{
    clamp_limit(limit, DEFAULT_LIMIT, MAX_LIMIT)
}

/// The cursor after a page of events with insertion sequences `seqs`: the last one, in decimal,
/// when the page is full.
pub fn audit_cursor(seqs: &[i64], limit: i64) -> (r: Option<String>)
    ensures
        r is Some <==> (seqs@.len() == limit && seqs@.len() > 0),
        r matches Some(c) ==> c@ == decimal_string(seqs@.last() as int),
{
    next_key_cursor(seqs, limit)
}

/// A stored detail as answered: structured when it is JSON, else verbatim.
pub fn audit_detail(raw: Option<String>) -> (r: Option<AuditDetail>)
    ensures
        match raw {
            None => r is None,
            Some(t) => if json_valid_of(t@) {
                r matches Some(AuditDetail::Structured(v)) && v@ == t@
            } else {
                r matches Some(AuditDetail::Verbatim(v)) && v@ == t@
            },
        },
{
    match raw {
        None => None,
        Some(t) => if json_valid(t.as_str()) {
            Some(AuditDetail::Structured(t))
        } else {
            Some(AuditDetail::Verbatim(t))
        },
    }
}

} // verus!
