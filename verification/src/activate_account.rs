//! `POST /xrpc/com.atproto.server.activateAccount` — clear the caller's deactivation. A real
//! transition is announced with an active `#account` frame, followed by a `#sync` head assertion
//! when the account has a repo, in the same transaction as the status change; activating an
//! active account is a silent no-op. The endpoint takes no body.

use vstd::prelude::*;
use crate::account_state::AccountStateChange;
use crate::error::{ApiError, ErrorCode, fails_with, is_api_error};

verus! {

/// Only a full access-scope token may activate.
pub fn require_access_scope(is_access: bool) -> (r: Result<(), ApiError>)
    ensures
        is_access ==> r is Ok,
        !is_access ==> fails_with(r, ErrorCode::InvalidToken, "access token required"@),
{
    if is_access {
        Ok(())
    } else {
        Err(ApiError::new(ErrorCode::InvalidToken, "access token required"))
    }
}

/// `u8::is_ascii_whitespace`: space, tab, line feed, form feed, carriage return.
pub open spec fn ascii_white_space(b: u8) -> bool {
    b == 32 || b == 9 || b == 10 || b == 12 || b == 13
}

/// The lexicon defines no input: an empty or all-whitespace body is accepted, anything else is a
/// malformed request.
pub fn check_empty_body(body: &[u8]) -> (r: Result<(), ApiError>)
    ensures
        (forall|i: int| 0 <= i < body@.len() ==> ascii_white_space(#[trigger] body@[i])) ==> r is Ok,
        !(forall|i: int| 0 <= i < body@.len() ==> ascii_white_space(#[trigger] body@[i])) ==> fails_with(
            r,
            ErrorCode::InvalidRequest,
            "activateAccount does not accept a request body"@,
        ),
{
    let mut i: usize = 0;
    while i < body.len()
        invariant
            i <= body@.len(),
            forall|j: int| 0 <= j < i ==> ascii_white_space(#[trigger] body@[j]),
        decreases body@.len() - i,
    {
        let b = body[i];
        if !(b == 32 || b == 9 || b == 10 || b == 12 || b == 13) {
            assert(!ascii_white_space(body@[i as int]));
            return Err(ApiError::new(ErrorCode::InvalidRequest, "activateAccount does not accept a request body"));
        }
        i = i + 1;
    }
    Ok(())
}

/// Any failure while activating.
pub fn activation_error() -> (e: ApiError)
    ensures
        is_api_error(e, ErrorCode::InternalError, "failed to activate account"@),
{
    ApiError::new(ErrorCode::InternalError, "failed to activate account")
}

/// The firehose frames a transition stages before its transaction commits.
#[derive(Clone, Copy, Debug, PartialEq, Eq, Structural)]
pub struct ActivationFrames {
    /// An active `#account` frame.
    pub account: bool,
    /// A `#sync` head assertion chained after it.
    pub sync: bool,
}

/// What the activation does once the status change came back: a missing account (removed under
/// a valid token) is refused and rolled back; an already-active account commits with no frame; a
/// real transition stages the `#account` frame, and the `#sync` frame when one could be built.
pub fn activation_frames(change: AccountStateChange, sync_built: bool) -> (r: Result<ActivationFrames, ApiError>)
    ensures
        change == AccountStateChange::NotFound ==> fails_with(r, ErrorCode::InvalidToken, "account not found"@),
        change == AccountStateChange::Unchanged ==> r == Ok::<ActivationFrames, ApiError>(
            ActivationFrames { account: false, sync: false },
        ),
        change == AccountStateChange::Changed ==> r == Ok::<ActivationFrames, ApiError>(
            ActivationFrames { account: true, sync: sync_built },
        ),
{
    match change {
        AccountStateChange::NotFound => Err(ApiError::new(ErrorCode::InvalidToken, "account not found")),
        AccountStateChange::Unchanged => Ok(ActivationFrames { account: false, sync: false }),
        AccountStateChange::Changed => Ok(ActivationFrames { account: true, sync: sync_built }),
    }
}

/// The head commit and revision a `#sync` frame anchors to: both must be stored (an account
/// without a repo, or without a stored revision, gets the `#account` frame alone).
pub fn sync_anchor(head: Option<String>, rev: Option<String>) -> (r: Option<(String, String)>)
    ensures
        match (head, rev) {
            (Some(h), Some(v)) => r matches Some(p) && p.0@ == h@ && p.1@ == v@,
            _ => r is None,
        },
{
    match head {
        Some(h) => match rev {
            Some(v) => Some((h, v)),
            None => None,
        },
        None => None,
    }
}

} // verus!
