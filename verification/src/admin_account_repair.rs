//! Operator account repair: set an account's email (which drops its confirmation) and issue a
//! one-hour password-reset token. Each repair runs in one transaction with its two audit rows
//! (the account-scoped one and the server-wide one).

use vstd::prelude::*;
use crate::boundary::{json_quoted, json_quoted_text};
use crate::error::{ApiError, ErrorCode, fails_with, is_api_error};
use crate::flow::Stage;
use crate::text::{owned, push_str};

verus! {

/// `POST /v1/admin/accounts/{did}/email` body.
#[derive(Debug)]
pub struct SetEmailRequest {
    pub email: String,
}

/// The repaired email; confirmation is always reset.
#[derive(Debug)]
pub struct SetEmailResponse {
    pub did: String,
    pub email: String,
    pub email_confirmed: bool,
}

/// A freshly issued reset token and its lifetime in seconds.
#[derive(Debug)]
pub struct ResetTokenResponse {
    pub did: String,
    pub token: String,
    pub expires_in: u32,
}

/// How long a reset token lives, in seconds.
pub const RESET_TOKEN_SECONDS: u32 = 3600;

/// Any database failure during a repair.
pub fn db_error() -> (e: ApiError)
    ensures
        is_api_error(e, ErrorCode::InternalError, "failed to repair account"@),
{
    ApiError::new(ErrorCode::InternalError, "failed to repair account")
}

/// The new (normalized) address must look like an email.
pub fn check_new_email(plausible: bool) -> (r: Result<(), ApiError>)
    ensures
        plausible ==> r is Ok,
        !plausible ==> fails_with(r, ErrorCode::InvalidRequest, "invalid email address"@),
{
    if plausible {
        Ok(())
    } else {
        Err(ApiError::new(ErrorCode::InvalidRequest, "invalid email address"))
    }
}

/// The account's current email; no row means no such account.
pub fn current_email(lookup: Result<Option<String>, ()>) -> (r: Result<String, ApiError>)
    ensures
        match lookup {
            Err(_) => fails_with(r, ErrorCode::InternalError, "failed to repair account"@),
            Ok(None) => fails_with(r, ErrorCode::NotFound, "account not found"@),
            Ok(Some(e)) => r matches Ok(v) && v@ == e@,
        },
{
    match lookup {
        Err(_) => Err(db_error()),
        Ok(None) => Err(ApiError::new(ErrorCode::NotFound, "account not found")),
        Ok(Some(e)) => Ok(e),
    }
}

/// The address must not be held by another account nor reserved by a pending signup (`conflict`
/// is the query's 0/1 answer; this account's own address may be set again).
pub fn email_unclaimed(conflict: Result<i64, ()>) -> (r: Result<(), ApiError>)
    ensures
        match conflict {
            Err(_) => fails_with(r, ErrorCode::InternalError, "failed to repair account"@),
            Ok(c) => if c != 0 {
                fails_with(r, ErrorCode::InvalidRequest, "this email address is already in use"@)
            } else {
                r is Ok
            },
        },
{
    match conflict {
        Err(_) => Err(db_error()),
        Ok(c) => if c != 0 {
            Err(ApiError::new(ErrorCode::InvalidRequest, "this email address is already in use"))
        } else {
            Ok(())
        },
    }
}

/// The `UPDATE accounts` outcome; its error says whether it was a uniqueness violation (a race
/// the pre-check lost), which is answered as the address being in use.
pub fn email_updated(update: Result<(), bool>) -> (r: Result<(), ApiError>)
    ensures
        match update {
            Ok(_) => r is Ok,
            Err(true) => fails_with(r, ErrorCode::InvalidRequest, "this email address is already in use"@),
            Err(false) => fails_with(r, ErrorCode::InternalError, "failed to repair account"@),
        },
{
    match update {
        Ok(_) => Ok(()),
        Err(true) => Err(ApiError::new(ErrorCode::InvalidRequest, "this email address is already in use")),
        Err(false) => Err(db_error()),
    }
}

/// The audit detail of an email repair: the compact JSON object with `newEmail` and
/// `previousEmail` (keys in sorted order, as a JSON map writes them).
pub open spec fn email_change_detail_spec(previous: Seq<char>, new: Seq<char>) -> Seq<char> {
    "{\"newEmail\":"@ + json_quoted_text(new) + ",\"previousEmail\":"@ + json_quoted_text(previous) + "}"@
}

/// The audit detail of an email repair.
pub fn email_change_detail(previous: &str, new: &str) -> (r: String)
    ensures
        r@ == email_change_detail_spec(previous@, new@),
{
    let mut d = owned("{\"newEmail\":");
    let q = json_quoted(new);
    push_str(&mut d, q.as_str());
    push_str(&mut d, ",\"previousEmail\":");
    let p = json_quoted(previous);
    push_str(&mut d, p.as_str());
    push_str(&mut d, "}");
    d
}

/// The answer to a repaired email: the new address, unconfirmed.
pub fn email_repaired(did: String, email: String) -> (r: SetEmailResponse)
    ensures
        r.did@ == did@,
        r.email@ == email@,
        !r.email_confirmed,
{
    SetEmailResponse { did, email, email_confirmed: false }
}

/// A reset token only resets an existing password: the account must exist (`lookup` is the
/// row's `password_hash` column) and hold a non-empty password hash. A passwordless account is
/// refused rather than given a password-login path it chose not to have.
pub fn resettable_password(lookup: Result<Option<Option<String>>, ()>) -> (r: Result<(), ApiError>)
    ensures
        match lookup {
            Err(_) => fails_with(r, ErrorCode::InternalError, "failed to repair account"@),
            Ok(None) => fails_with(r, ErrorCode::NotFound, "account not found"@),
            Ok(Some(None)) => fails_with(r, ErrorCode::InvalidRequest, "account has no password to reset"@),
            Ok(Some(Some(h))) => if h@.len() == 0 {
                fails_with(r, ErrorCode::InvalidRequest, "account has no password to reset"@)
            } else {
                r is Ok
            },
        },
{
    match lookup {
        Err(_) => Err(db_error()),
        Ok(None) => Err(ApiError::new(ErrorCode::NotFound, "account not found")),
        Ok(Some(None)) => Err(ApiError::new(ErrorCode::InvalidRequest, "account has no password to reset")),
        Ok(Some(Some(h))) => if h.as_str().is_empty() {
            Err(ApiError::new(ErrorCode::InvalidRequest, "account has no password to reset"))
        } else {
            Ok(())
        },
    }
}

/// The answer to an issued reset token: its plaintext, valid for an hour.
pub fn reset_token_issued(did: String, token: String) -> (r: ResetTokenResponse)
    ensures
        r.did@ == did@,
        r.token@ == token@,
        r.expires_in == 3600,
{
    ResetTokenResponse { did, token, expires_in: RESET_TOKEN_SECONDS }
}

/// The stages of an email repair, in order.
#[derive(Clone, Copy, Debug, PartialEq, Eq, Structural)]
pub enum EmailRepairStage {
    /// Operator authentication (JSON body).
    Authenticate,
    /// Parse the body, normalize the address and check it is plausible.
    CheckEmail,
    Begin,
    /// Load the current address (404 without an account).
    LoadAccount,
    /// Refuse an address in use elsewhere.
    CheckConflict,
    /// Set the address and clear its confirmation.
    Update,
    /// The account-scoped audit row.
    AuditAccount,
    /// The server-wide audit row.
    AuditServer,
    Commit,
}

impl Stage for EmailRepairStage {
    open spec fn successor(self) -> Option<EmailRepairStage> {
        match self {
            EmailRepairStage::Authenticate => Some(EmailRepairStage::CheckEmail),
            EmailRepairStage::CheckEmail => Some(EmailRepairStage::Begin),
            EmailRepairStage::Begin => Some(EmailRepairStage::LoadAccount),
            EmailRepairStage::LoadAccount => Some(EmailRepairStage::CheckConflict),
            EmailRepairStage::CheckConflict => Some(EmailRepairStage::Update),
            EmailRepairStage::Update => Some(EmailRepairStage::AuditAccount),
            EmailRepairStage::AuditAccount => Some(EmailRepairStage::AuditServer),
            EmailRepairStage::AuditServer => Some(EmailRepairStage::Commit),
            EmailRepairStage::Commit => None,
        }
    }

    fn following(&self) -> (r: Option<EmailRepairStage>) {
        match self {
            EmailRepairStage::Authenticate => Some(EmailRepairStage::CheckEmail),
            EmailRepairStage::CheckEmail => Some(EmailRepairStage::Begin),
            EmailRepairStage::Begin => Some(EmailRepairStage::LoadAccount),
            EmailRepairStage::LoadAccount => Some(EmailRepairStage::CheckConflict),
            EmailRepairStage::CheckConflict => Some(EmailRepairStage::Update),
            EmailRepairStage::Update => Some(EmailRepairStage::AuditAccount),
            EmailRepairStage::AuditAccount => Some(EmailRepairStage::AuditServer),
            EmailRepairStage::AuditServer => Some(EmailRepairStage::Commit),
            EmailRepairStage::Commit => None,
        }
    }
}

/// The stages of issuing a reset token, in order.
#[derive(Clone, Copy, Debug, PartialEq, Eq, Structural)]
pub enum ResetTokenStage {
    Authenticate,
    Begin,
    /// Load the password hash (404 without an account, 400 without a password).
    LoadAccount,
    /// Store the token's hash, valid for an hour.
    InsertToken,
    /// The account-scoped audit row (no detail: the plaintext is never audited).
    AuditAccount,
    AuditServer,
    Commit,
}

impl Stage for ResetTokenStage {
    open spec fn successor(self) -> Option<ResetTokenStage> {
        match self {
            ResetTokenStage::Authenticate => Some(ResetTokenStage::Begin),
            ResetTokenStage::Begin => Some(ResetTokenStage::LoadAccount),
            ResetTokenStage::LoadAccount => Some(ResetTokenStage::InsertToken),
            ResetTokenStage::InsertToken => Some(ResetTokenStage::AuditAccount),
            ResetTokenStage::AuditAccount => Some(ResetTokenStage::AuditServer),
            ResetTokenStage::AuditServer => Some(ResetTokenStage::Commit),
            ResetTokenStage::Commit => None,
        }
    }

    fn following(&self) -> (r: Option<ResetTokenStage>) {
        match self {
            ResetTokenStage::Authenticate => Some(ResetTokenStage::Begin),
            ResetTokenStage::Begin => Some(ResetTokenStage::LoadAccount),
            ResetTokenStage::LoadAccount => Some(ResetTokenStage::InsertToken),
            ResetTokenStage::InsertToken => Some(ResetTokenStage::AuditAccount),
            ResetTokenStage::AuditAccount => Some(ResetTokenStage::AuditServer),
            ResetTokenStage::AuditServer => Some(ResetTokenStage::Commit),
            ResetTokenStage::Commit => None,
        }
    }
}

} // verus!
