//! `POST /xrpc/com.atproto.server.confirmEmail` — confirm the account's email with two factors:
//! a full-access session and the single-use emailed token. The submitted address must be the
//! account's current one, so a token minted before an email change cannot confirm the new
//! address.

use vstd::prelude::*;
use crate::error::{ApiError, ErrorCode, fails_with};
use crate::flow::Stage;
use crate::text::{eq_ignore_ascii_case, eq_ignore_ascii_case_spec};

verus! {

/// The request body.
#[derive(Debug)]
pub struct ConfirmEmailRequest {
    pub email: String,
    pub token: String,
}

/// Only a full access token may confirm.
pub fn require_full_access(is_access: bool) -> (r: Result<(), ApiError>)
    ensures
        is_access ==> r is Ok,
        !is_access ==> fails_with(r, ErrorCode::InvalidToken, "full access token required"@),
{
    if is_access {
        Ok(())
    } else {
        Err(ApiError::new(ErrorCode::InvalidToken, "full access token required"))
    }
}

/// The session's account (its current email); none means the account is gone.
pub fn session_account_email(email: Option<String>) -> (r: Result<String, ApiError>)
    ensures
        match email {
            Some(e) => r matches Ok(v) && v@ == e@,
            None => fails_with(r, ErrorCode::InvalidToken, "account not found"@),
        },
{
    match email {
        Some(e) => Ok(e),
        None => Err(ApiError::new(ErrorCode::InvalidToken, "account not found")),
    }
}

/// The submitted address must be the account's current one, ignoring ASCII case.
pub fn email_matches(account_email: &str, submitted: &str) -> (r: Result<(), ApiError>)
    ensures
        eq_ignore_ascii_case_spec(account_email@, submitted@) ==> r is Ok,
        !eq_ignore_ascii_case_spec(account_email@, submitted@) ==> fails_with(
            r,
            ErrorCode::InvalidRequest,
            "email does not match the account email"@,
        ),
{
    if eq_ignore_ascii_case(account_email, submitted) {
        Ok(())
    } else {
        Err(ApiError::new(ErrorCode::InvalidRequest, "email does not match the account email"))
    }
}

/// A token that cannot even be hashed.
pub fn unhashable_token() -> (r: ApiError)
    ensures
        r.code == ErrorCode::ExpiredToken,
        r.message@ == "invalid confirmation token"@,
{
    ApiError::new(ErrorCode::ExpiredToken, "invalid confirmation token")
}

/// The token must be consumed (bound to this DID and the confirm purpose, single use).
pub fn token_consumed(consumed: bool) -> (r: Result<(), ApiError>)
    ensures
        consumed ==> r is Ok,
        !consumed ==> fails_with(r, ErrorCode::ExpiredToken, "invalid or expired confirmation token"@),
{
    if consumed {
        Ok(())
    } else {
        Err(ApiError::new(ErrorCode::ExpiredToken, "invalid or expired confirmation token"))
    }
}

/// The confirmation must land on an active account (a concurrent deactivation is surfaced, not
/// silently ignored).
pub fn email_confirmed(updated: bool) -> (r: Result<(), ApiError>)
    ensures
        updated ==> r is Ok,
        !updated ==> fails_with(r, ErrorCode::InvalidToken, "account not found or not active"@),
{
    if updated {
        Ok(())
    } else {
        Err(ApiError::new(ErrorCode::InvalidToken, "account not found or not active"))
    }
}

/// The stages of a confirmation, in order.
#[derive(Clone, Copy, Debug, PartialEq, Eq, Structural)]
pub enum ConfirmEmailStage {
    RequireFullAccess,
    /// The token's scope must allow managing the account email.
    RequireEmailScope,
    LoadAccount,
    MatchEmail,
    ConsumeToken,
    MarkConfirmed,
}

impl Stage for ConfirmEmailStage {
    open spec fn successor(self) -> Option<ConfirmEmailStage> {
        match self {
            ConfirmEmailStage::RequireFullAccess => Some(ConfirmEmailStage::RequireEmailScope),
            ConfirmEmailStage::RequireEmailScope => Some(ConfirmEmailStage::LoadAccount),
            ConfirmEmailStage::LoadAccount => Some(ConfirmEmailStage::MatchEmail),
            ConfirmEmailStage::MatchEmail => Some(ConfirmEmailStage::ConsumeToken),
            ConfirmEmailStage::ConsumeToken => Some(ConfirmEmailStage::MarkConfirmed),
            ConfirmEmailStage::MarkConfirmed => None,
        }
    }

    fn following(&self) -> (r: Option<ConfirmEmailStage>) {
        match self {
            ConfirmEmailStage::RequireFullAccess => Some(ConfirmEmailStage::RequireEmailScope),
            ConfirmEmailStage::RequireEmailScope => Some(ConfirmEmailStage::LoadAccount),
            ConfirmEmailStage::LoadAccount => Some(ConfirmEmailStage::MatchEmail),
            ConfirmEmailStage::MatchEmail => Some(ConfirmEmailStage::ConsumeToken),
            ConfirmEmailStage::ConsumeToken => Some(ConfirmEmailStage::MarkConfirmed),
            ConfirmEmailStage::MarkConfirmed => None,
        }
    }
}

} // verus!
