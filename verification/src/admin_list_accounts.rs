//! `GET /v1/admin/accounts` — the operator's account listing and search: DID order, cursor
//! pagination, an optional derived-lifecycle filter and a substring search over DIDs and handles.
//! Each row carries its blob storage; the quota is stated once for the page.

use vstd::prelude::*;
use crate::error::{ApiError, ErrorCode, fails_with, is_api_error};
use crate::paging::{clamp_limit, clamp_spec};
use crate::text::{owned, trim, trim_spec};

verus! {

/// Page size without a `limit`.
pub const DEFAULT_LIMIT: i64 = 50;

/// Largest page size.
pub const MAX_LIMIT: i64 = 100;

/// Query parameters.
#[derive(Debug)]
pub struct ListAccountsParams {
    pub limit: Option<i64>,
    pub cursor: Option<String>,
    pub status: Option<String>,
    pub q: Option<String>,
}

/// An account's derived lifecycle (takendown over suspended over deactivated).
#[derive(Clone, Copy, Debug, PartialEq, Eq, Structural)]
pub enum AccountLifecycle {
    Active,
    Deactivated,
    Suspended,
    TakenDown,
}

/// The status word of a lifecycle, as the listing and its filter spell it.
pub open spec fn lifecycle_word(l: AccountLifecycle) -> Seq<char> {
    match l {
        AccountLifecycle::Active => "active"@,
        AccountLifecycle::Deactivated => "deactivated"@,
        AccountLifecycle::Suspended => "suspended"@,
        AccountLifecycle::TakenDown => "takendown"@,
    }
}

impl AccountLifecycle {
    /// The status word (the listing always states it, `active` included).
    pub fn status_word(&self) -> (r: &'static str)
        ensures
            r@ == lifecycle_word(*self),
    {
        match self {
            AccountLifecycle::Active => "active",
            AccountLifecycle::Deactivated => "deactivated",
            AccountLifecycle::Suspended => "suspended",
            AccountLifecycle::TakenDown => "takendown",
        }
    }
}

/// The lifecycle a status filter names: one of the four words, else a 400.
pub fn status_filter(status: Option<&str>) -> (r: Result<Option<AccountLifecycle>, ApiError>)
    ensures
        status is None ==> r == Ok::<Option<AccountLifecycle>, ApiError>(None),
        status is Some ==> (match r {
            Ok(Some(l)) => lifecycle_word(l) == status->0@,
            Ok(None) => false,
            Err(e) => is_api_error(
                e,
                ErrorCode::InvalidRequest,
                "status must be one of: active, deactivated, suspended, takendown"@,
            ) && status->0@ != "active"@ && status->0@ != "deactivated"@ && status->0@ != "suspended"@
                && status->0@ != "takendown"@,
        }),
{
    match status {
        None => Ok(None),
        Some(s) => {
            if crate::text::str_eq(s, "active") {
                Ok(Some(AccountLifecycle::Active))
            } else if crate::text::str_eq(s, "deactivated") {
                Ok(Some(AccountLifecycle::Deactivated))
            } else if crate::text::str_eq(s, "suspended") {
                Ok(Some(AccountLifecycle::Suspended))
            } else if crate::text::str_eq(s, "takendown") {
                Ok(Some(AccountLifecycle::TakenDown))
            } else {
                Err(
                    ApiError::new(
                        ErrorCode::InvalidRequest,
                        "status must be one of: active, deactivated, suspended, takendown",
                    ),
                )
            }
        },
    }
}

/// The page size: `limit` (default 50) clamped to 1..=100.
pub fn list_limit(limit: Option<i64>) -> (r: i64)
    ensures
        r == clamp_spec(
            match limit {
                Some(l) => l as int,
                None => 50,
            },
            100,
        ),
{
    clamp_limit(limit, DEFAULT_LIMIT, MAX_LIMIT)
}

/// The DID after which the page starts; the beginning without a cursor.
pub fn list_cursor(cursor: Option<&str>) -> (r: String)
    ensures
        match cursor {
            Some(c) => r@ == c@,
            None => r@.len() == 0,
        },
{
    match cursor {
        Some(c) => owned(c),
        None => String::new(),
    }
}

/// The search term, trimmed; a blank search box means no filter.
pub fn search_term(q: Option<&str>) -> (r: Option<String>)
    ensures
        match q {
            Some(t) if trim_spec(t@).len() > 0 => r matches Some(v) && v@ == trim_spec(t@),
            _ => r is None,
        },
{
    match q {
        Some(t) => {
            let v = trim(t);
            if v.as_str().is_empty() {
                None
            } else {
                Some(v)
            }
        },
        None => None,
    }
}

/// The configured per-account quota as a JSON number: a `u64` saturated to `i64::MAX`.
pub fn quota_bytes(configured: u64) -> (q: i64)
    ensures
        configured <= i64::MAX ==> q == configured as i64,
        configured > i64::MAX ==> q == i64::MAX,
{
    if configured <= i64::MAX as u64 {
        configured as i64
    } else {
        i64::MAX
    }
}

/// Failure reading the page.
pub fn list_error() -> (e: ApiError)
    ensures
        is_api_error(e, ErrorCode::InternalError, "failed to list accounts"@),
{
    ApiError::new(ErrorCode::InternalError, "failed to list accounts")
}

/// One account as the listing query returns it.
#[derive(Debug)]
pub struct AccountRow {
    pub did: String,
    pub handle: Option<String>,
    pub created_at: String,
    pub lifecycle: AccountLifecycle,
    pub blob_bytes: i64,
}

/// One account of the page. (The share of the quota each account uses is a float and is added
/// where the page is written out.)
#[derive(Debug)]
pub struct AccountEntry {
    pub did: String,
    pub handle: Option<String>,
    pub created_at: String,
    pub status: &'static str,
    pub total_bytes: i64,
}

/// The page's entry for a row, its lifecycle always stated.
pub fn account_entry(row: AccountRow) -> (e: AccountEntry)
    ensures
        e.did@ == row.did@,
        e.handle == row.handle,
        e.created_at@ == row.created_at@,
        e.status@ == lifecycle_word(row.lifecycle),
        e.total_bytes == row.blob_bytes,
{
    AccountEntry {
        did: row.did,
        handle: row.handle,
        created_at: row.created_at,
        status: row.lifecycle.status_word(),
        total_bytes: row.blob_bytes,
    }
}


/// The text of an optional string.
pub open spec fn opt_text(o: Option<String>) -> Option<Seq<char>> {
    match o {
        Some(s) => Some(s@),
        None => None,
    }
}

/// The page: its entries (the float quota share aside), the quota, and the next cursor.
#[derive(Debug)]
pub struct ListAccountsResponse {
    pub accounts: Vec<AccountEntry>,
    pub quota_bytes: i64,
    pub cursor: Option<String>,
}

/// The entry of `row` in a page.
pub open spec fn entry_of(e: AccountEntry, row: AccountRow) -> bool {
    &&& e.did@ == row.did@
    &&& opt_text(e.handle) == opt_text(row.handle)
    &&& e.created_at@ == row.created_at@
    &&& e.status@ == lifecycle_word(row.lifecycle)
    &&& e.total_bytes == row.blob_bytes
}

/// The page of `rows` read with page size `limit`: one entry per row in order, and, when the
/// page is full, the last DID as the cursor of the next page.
pub fn accounts_page(rows: Vec<AccountRow>, limit: i64, quota_bytes: i64) -> (r: ListAccountsResponse)
    ensures
        r.accounts@.len() == rows@.len(),
        forall|i: int| 0 <= i < rows@.len() ==> entry_of(#[trigger] r.accounts@[i], rows@[i]),
        r.quota_bytes == quota_bytes,
        r.cursor is Some <==> (rows@.len() == limit && rows@.len() > 0),
        r.cursor matches Some(c) ==> c@ == rows@.last().did@,
{
    let n = rows.len();
    let cursor = if n as i128 == limit as i128 && n > 0 {
        Some(owned(rows[n - 1].did.as_str()))
    } else {
        None
    };
    let mut accounts: Vec<AccountEntry> = Vec::new();
    let mut i: usize = 0;
    while i < n
        invariant
            n == rows@.len(),
            i <= n,
            accounts@.len() == i,
            forall|j: int| 0 <= j < i ==> entry_of(#[trigger] accounts@[j], rows@[j]),
        decreases n - i,
    {
        let row = &rows[i];
        let handle = match &row.handle {
            Some(h) => Some(owned(h.as_str())),
            None => None,
        };
        let copy = AccountRow {
            did: owned(row.did.as_str()),
            handle,
            created_at: owned(row.created_at.as_str()),
            lifecycle: row.lifecycle,
            blob_bytes: row.blob_bytes,
        };
        accounts.push(account_entry(copy));
        i = i + 1;
    }
    ListAccountsResponse { accounts, quota_bytes, cursor }
}


/// Every status word the listing reports is one the status filter accepts, and names one
/// lifecycle only, so filtering by a listed status finds that lifecycle again.
pub proof fn listed_status_is_a_valid_filter(a: AccountLifecycle, b: AccountLifecycle)
    ensures
        lifecycle_word(a) == "active"@ || lifecycle_word(a) == "deactivated"@ || lifecycle_word(a) == "suspended"@
            || lifecycle_word(a) == "takendown"@,
        lifecycle_word(a) == lifecycle_word(b) ==> a == b,
{
    reveal_strlit("active");
    reveal_strlit("deactivated");
    reveal_strlit("suspended");
    reveal_strlit("takendown");
    assert("active"@.len() != "deactivated"@.len());
    assert("active"@.len() != "suspended"@.len());
    assert("active"@.len() != "takendown"@.len());
    assert("deactivated"@.len() != "suspended"@.len());
    assert("deactivated"@.len() != "takendown"@.len());
    assert("suspended"@[0] != "takendown"@[0]);
}

} // verus!
