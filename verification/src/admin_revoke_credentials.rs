//! `POST /v1/admin/accounts/{did}/revoke-credentials` — the operator kill-switch for a
//! compromised account. In one transaction it deletes the account's sessions (with their refresh
//! tokens), app passwords, OAuth refresh tokens and pending authorization codes, and tombstones
//! its promoted transfer-device tokens; the main password and operator devices are left alone.
//! The answer reports how many credentials of each family went.

use vstd::prelude::*;
use crate::error::{ApiError, ErrorCode, fails_with, is_api_error};
use crate::flow::Stage;
use crate::paging::{decimal_string, u64_to_string};
use crate::text::{owned, push_str};

verus! {

/// Per-family revocation counts, as the answer reports them.
#[derive(Debug)]
pub struct RevokeCredentialsResponse {
    pub sessions_revoked: i64,
    pub app_passwords_revoked: i64,
    pub oauth_tokens_revoked: i64,
    pub oauth_codes_revoked: i64,
    pub transfer_device_tokens_revoked: i64,
}

/// The rows each statement of the sweep affected.
#[derive(Clone, Copy, Debug, PartialEq, Eq, Structural)]
pub struct RevocationCounts {
    pub sessions: u64,
    pub app_passwords: u64,
    pub oauth_tokens: u64,
    pub oauth_codes: u64,
    pub transfer_devices: u64,
}

/// The account must exist (checked after operator authentication, so an unauthenticated caller
/// cannot probe which DIDs exist).
pub fn account_present(exists: bool) -> (r: Result<(), ApiError>)
    ensures
        exists ==> r is Ok,
        !exists ==> fails_with(r, ErrorCode::NotFound, "account not found"@),
{
    if exists {
        Ok(())
    } else {
        Err(ApiError::new(ErrorCode::NotFound, "account not found"))
    }
}

/// Any database failure during the sweep.
pub fn sweep_error() -> (e: ApiError)
    ensures
        is_api_error(e, ErrorCode::InternalError, "failed to revoke credentials"@),
{
    ApiError::new(ErrorCode::InternalError, "failed to revoke credentials")
}

/// The audit detail of a sweep: the compact JSON object of the counts, keys in sorted order.
pub open spec fn sweep_detail_spec(c: RevocationCounts) -> Seq<char> {
    "{\"appPasswordsRevoked\":"@ + decimal_string(c.app_passwords as int) + ",\"oauthCodesRevoked\":"@
        + decimal_string(c.oauth_codes as int) + ",\"oauthTokensRevoked\":"@ + decimal_string(
        c.oauth_tokens as int,
    ) + ",\"sessionsRevoked\":"@ + decimal_string(c.sessions as int)
        + ",\"transferDeviceTokensRevoked\":"@ + decimal_string(c.transfer_devices as int) + "}"@
}

/// The audit detail of a sweep, carrying the literal counts the answer reports.
pub fn sweep_detail(c: &RevocationCounts) -> (r: String)
    ensures
        r@ == sweep_detail_spec(*c),
{
    let mut d = owned("{\"appPasswordsRevoked\":");
    let n = u64_to_string(c.app_passwords);
    push_str(&mut d, n.as_str());
    push_str(&mut d, ",\"oauthCodesRevoked\":");
    let n = u64_to_string(c.oauth_codes);
    push_str(&mut d, n.as_str());
    push_str(&mut d, ",\"oauthTokensRevoked\":");
    let n = u64_to_string(c.oauth_tokens);
    push_str(&mut d, n.as_str());
    push_str(&mut d, ",\"sessionsRevoked\":");
    let n = u64_to_string(c.sessions);
    push_str(&mut d, n.as_str());
    push_str(&mut d, ",\"transferDeviceTokensRevoked\":");
    let n = u64_to_string(c.transfer_devices);
    push_str(&mut d, n.as_str());
    push_str(&mut d, "}");
    d
}

/// The answer reporting sweep counts `c`: each count as reported, one field per credential kind.
pub open spec fn revocation_answers(c: RevocationCounts, r: RevokeCredentialsResponse) -> bool {
    &&& r.sessions_revoked == c.sessions as i64
    &&& r.app_passwords_revoked == c.app_passwords as i64
    &&& r.oauth_tokens_revoked == c.oauth_tokens as i64
    &&& r.oauth_codes_revoked == c.oauth_codes as i64
    &&& r.transfer_device_tokens_revoked == c.transfer_devices as i64
}

/// The answer: each count as a signed 64-bit number (as `u64 as i64` converts it).
pub fn revocation_response(c: &RevocationCounts) -> (r: RevokeCredentialsResponse)
    ensures
        revocation_answers(*c, r),
{
    RevokeCredentialsResponse {
        sessions_revoked: c.sessions as i64,
        app_passwords_revoked: c.app_passwords as i64,
        oauth_tokens_revoked: c.oauth_tokens as i64,
        oauth_codes_revoked: c.oauth_codes as i64,
        transfer_device_tokens_revoked: c.transfer_devices as i64,
    }
}

/// No credential rows of any kind.
pub open spec fn no_rows() -> RevocationCounts {
    RevocationCounts { sessions: 0, app_passwords: 0, oauth_tokens: 0, oauth_codes: 0, transfer_devices: 0 }
}

/// A sweep over an account holding `held` credential rows of each kind: every statement deletes
/// all of the account's rows of its kind, so it reports `held` and leaves none.
pub open spec fn sweep_of(held: RevocationCounts) -> (RevocationCounts, RevocationCounts) {
    (held, no_rows())
}

/// A repeated sweep is a no-op: with no credential created since the first one, the second
/// sweep finds nothing left and answers zero for every kind.
pub proof fn repeat_sweep_reports_zero(held: RevocationCounts)
    ensures
        forall|r: RevokeCredentialsResponse|
            #[trigger] revocation_answers(sweep_of(sweep_of(held).1).0, r) ==> {
                &&& r.sessions_revoked == 0
                &&& r.app_passwords_revoked == 0
                &&& r.oauth_tokens_revoked == 0
                &&& r.oauth_codes_revoked == 0
                &&& r.transfer_device_tokens_revoked == 0
            },
{
}

/// The stages of a credential sweep, in order. The deletes follow the foreign-key graph
/// (refresh tokens before the sessions they hang off).
#[derive(Clone, Copy, Debug, PartialEq, Eq, Structural)]
pub enum SweepStage {
    Authenticate,
    CheckAccount,
    Begin,
    DeleteRefreshTokens,
    DeleteSessions,
    DeleteOAuthTokens,
    DeleteOAuthCodes,
    DeleteAppPasswords,
    /// Stamp `revoked_at` on live transfer-device tokens (the row stays as the audit record).
    TombstoneTransferDevices,
    Audit,
    Commit,
}

impl Stage for SweepStage {
    open spec fn successor(self) -> Option<SweepStage> {
        match self {
            SweepStage::Authenticate => Some(SweepStage::CheckAccount),
            SweepStage::CheckAccount => Some(SweepStage::Begin),
            SweepStage::Begin => Some(SweepStage::DeleteRefreshTokens),
            SweepStage::DeleteRefreshTokens => Some(SweepStage::DeleteSessions),
            SweepStage::DeleteSessions => Some(SweepStage::DeleteOAuthTokens),
            SweepStage::DeleteOAuthTokens => Some(SweepStage::DeleteOAuthCodes),
            SweepStage::DeleteOAuthCodes => Some(SweepStage::DeleteAppPasswords),
            SweepStage::DeleteAppPasswords => Some(SweepStage::TombstoneTransferDevices),
            SweepStage::TombstoneTransferDevices => Some(SweepStage::Audit),
            SweepStage::Audit => Some(SweepStage::Commit),
            SweepStage::Commit => None,
        }
    }

    fn following(&self) -> (r: Option<SweepStage>) {
        match self {
            SweepStage::Authenticate => Some(SweepStage::CheckAccount),
            SweepStage::CheckAccount => Some(SweepStage::Begin),
            SweepStage::Begin => Some(SweepStage::DeleteRefreshTokens),
            SweepStage::DeleteRefreshTokens => Some(SweepStage::DeleteSessions),
            SweepStage::DeleteSessions => Some(SweepStage::DeleteOAuthTokens),
            SweepStage::DeleteOAuthTokens => Some(SweepStage::DeleteOAuthCodes),
            SweepStage::DeleteOAuthCodes => Some(SweepStage::DeleteAppPasswords),
            SweepStage::DeleteAppPasswords => Some(SweepStage::TombstoneTransferDevices),
            SweepStage::TombstoneTransferDevices => Some(SweepStage::Audit),
            SweepStage::Audit => Some(SweepStage::Commit),
            SweepStage::Commit => None,
        }
    }
}


/// The audit detail of a sweep records the very counts its answer reports (for counts that fit a
/// signed 64-bit number, which the answer's fields hold unchanged).
pub proof fn sweep_detail_matches_the_answer(c: RevocationCounts, r: RevokeCredentialsResponse)
    requires
        c.sessions <= i64::MAX,
        c.app_passwords <= i64::MAX,
        c.oauth_tokens <= i64::MAX,
        c.oauth_codes <= i64::MAX,
        c.transfer_devices <= i64::MAX,
        r.sessions_revoked == c.sessions as i64,
        r.app_passwords_revoked == c.app_passwords as i64,
        r.oauth_tokens_revoked == c.oauth_tokens as i64,
        r.oauth_codes_revoked == c.oauth_codes as i64,
        r.transfer_device_tokens_revoked == c.transfer_devices as i64,
    ensures
        sweep_detail_spec(c) == "{\"appPasswordsRevoked\":"@ + decimal_string(r.app_passwords_revoked as int)
            + ",\"oauthCodesRevoked\":"@ + decimal_string(r.oauth_codes_revoked as int) + ",\"oauthTokensRevoked\":"@
            + decimal_string(r.oauth_tokens_revoked as int) + ",\"sessionsRevoked\":"@ + decimal_string(
            r.sessions_revoked as int,
        ) + ",\"transferDeviceTokensRevoked\":"@ + decimal_string(r.transfer_device_tokens_revoked as int)
            + "}"@,
{
}

} // verus!
