//! The error values the routes answer with: the XRPC/`/v1` API error (a code and a message) and
//! the auth.md agent-registration error (an HTTP status, an `error` word and a description).

use vstd::prelude::*;
use crate::text::owned;

verus! {

/// The API error vocabulary the routes use.
#[derive(Clone, Copy, Debug, PartialEq, Eq, Structural)]
pub enum ErrorCode {
    InvalidRequest,
    InternalError,
    NotFound,
    InvalidClaim,
    InvalidToken,
    ExpiredToken,
    Forbidden,
    Conflict,
    ServiceUnavailable,
    PayloadTooLarge,
    InsufficientScope,
    AuthenticationRequired,
    InvalidHandle,
    DidAlreadyExists,
    AccountExists,
    HandleTaken,
}

/// An API error: a code and a human-readable message.
#[derive(Debug)]
pub struct ApiError {
    pub code: ErrorCode,
    pub message: String,
}

/// `e` is the error `code` with message `msg`.
pub open spec fn is_api_error(e: ApiError, code: ErrorCode, msg: Seq<char>) -> bool {
    e.code == code && e.message@ == msg
}

/// `r` failed with the error `code` and message `msg`.
pub open spec fn fails_with<T>(r: Result<T, ApiError>, code: ErrorCode, msg: Seq<char>) -> bool {
    r matches Err(e) && is_api_error(e, code, msg)
}

impl ApiError {
    /// An error with the given code and message.
    pub fn new(code: ErrorCode, message: &str) -> (e: ApiError)
        ensures
            is_api_error(e, code, message@),
    {
        ApiError { code, message: owned(message) }
    }

    /// An error with the given code and an already-built message.
    pub fn with_message(code: ErrorCode, message: String) -> (e: ApiError)
        ensures
            e.code == code,
            e.message@ == message@,
    {
        ApiError { code, message }
    }
}

/// An auth.md agent-registration error (`{error, error_description}` on the wire), or the
/// `interaction_required` answer that carries a fresh claim challenge.
#[derive(Debug)]
pub enum AgentAuthError {
    Rejected { status: u16, error: String, description: String },
    InteractionRequired { user_code: String, claim_token: String },
}

/// `e` is the rejection with this status, error word and description.
pub open spec fn is_agent_error(e: AgentAuthError, status: u16, error: Seq<char>, description: Seq<char>) -> bool {
    e matches AgentAuthError::Rejected { status: s, error: w, description: d } && s == status && w@ == error
        && d@ == description
}

/// `r` failed with this status, error word and description.
pub open spec fn agent_fails_with<T>(
    r: Result<T, AgentAuthError>,
    status: u16,
    error: Seq<char>,
    description: Seq<char>,
) -> bool {
    r matches Err(e) && is_agent_error(e, status, error, description)
}

/// `e` is a server-side fault (500 `server_error`).
pub open spec fn is_agent_server_error(e: AgentAuthError) -> bool {
    e matches AgentAuthError::Rejected { status: s, error: w, .. } && s == 500 && w@ == "server_error"@
}

impl AgentAuthError {
    /// A rejection with the given status, error word and description.
    pub fn new(status: u16, error: &str, description: &str) -> (e: AgentAuthError)
        ensures
            is_agent_error(e, status, error@, description@),
    {
        AgentAuthError::Rejected { status, error: owned(error), description: owned(description) }
    }

    /// A server-side fault.
    pub fn server_error() -> (e: AgentAuthError)
        ensures
            is_agent_error(e, 500, "server_error"@, "internal server error"@),
            is_agent_server_error(e),
    {
        AgentAuthError::new(500, "server_error", "internal server error")
    }

    /// The `interaction_required` answer: the claim ceremony must be completed first.
    pub fn interaction_required(user_code: String, claim_token: String) -> (e: AgentAuthError)
        ensures
            e matches AgentAuthError::InteractionRequired { user_code: u, claim_token: t } && u@
                == user_code@ && t@ == claim_token@,
    {
        AgentAuthError::InteractionRequired { user_code, claim_token }
    }
}

} // verus!
