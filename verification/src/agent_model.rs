//! The agent-registration records the agent routes decide over: an agent identity, its claim
//! attempts, and the result of authenticating the account owner.

use vstd::prelude::*;
use crate::error::ApiError;

verus! {

/// Lifecycle of an agent identity: registered and awaiting a claim, claimed (bound and usable),
/// or revoked.
#[derive(Clone, Copy, Debug, PartialEq, Eq, Structural)]
pub enum AgentIdentityStatus {
    Active,
    Claimed,
    Revoked,
}

/// The stored status word.
pub open spec fn identity_status_word(s: AgentIdentityStatus) -> Seq<char> {
    match s {
        AgentIdentityStatus::Active => "active"@,
        AgentIdentityStatus::Claimed => "claimed"@,
        AgentIdentityStatus::Revoked => "revoked"@,
    }
}

impl AgentIdentityStatus {
    /// The stored status word.
    pub fn as_str(&self) -> (r: &'static str)
        ensures
            r@ == identity_status_word(*self),
    {
        match self {
            AgentIdentityStatus::Active => "active",
            AgentIdentityStatus::Claimed => "claimed",
            AgentIdentityStatus::Revoked => "revoked",
        }
    }
}

/// How an agent identity was registered.
#[derive(Clone, Copy, Debug, PartialEq, Eq, Structural)]
pub enum RegistrationType {
    IdentityAssertion,
    ServiceAuth,
    Anonymous,
    Child,
}

/// The registration type word used on the wire and in assertions.
pub open spec fn registration_type_word(t: RegistrationType) -> Seq<char> {
    match t {
        RegistrationType::IdentityAssertion => "identity_assertion"@,
        RegistrationType::ServiceAuth => "service_auth"@,
        RegistrationType::Anonymous => "anonymous"@,
        RegistrationType::Child => "child"@,
    }
}

impl RegistrationType {
    /// The registration type word.
    pub fn as_str(&self) -> (r: &'static str)
        ensures
            r@ == registration_type_word(*self),
    {
        match self {
            RegistrationType::IdentityAssertion => "identity_assertion",
            RegistrationType::ServiceAuth => "service_auth",
            RegistrationType::Anonymous => "anonymous",
            RegistrationType::Child => "child",
        }
    }
}

/// A stored agent identity, as far as the routes read it.
#[derive(Debug)]
pub struct AgentIdentityRow {
    pub id: String,
    /// The account it acts as; absent for an unclaimed anonymous registration.
    pub did: Option<String>,
    /// The parent account of a sovereign child.
    pub parent_did: Option<String>,
    pub registration_type: RegistrationType,
    pub issuer: Option<String>,
    pub subject: Option<String>,
    pub email: Option<String>,
    pub status: AgentIdentityStatus,
    pub claim_token: Option<String>,
    pub claim_token_expires_at: Option<String>,
    /// The granted scopes, as the stored JSON array text.
    pub scopes: String,
    pub created_at: String,
}

/// Stored state of a claim attempt.
#[derive(Clone, Copy, Debug, PartialEq, Eq, Structural)]
pub enum ClaimAttemptStatus {
    Pending,
    Completed,
    Expired,
}

/// A claim attempt: the user code shown to the human, and its state. `past_expiry` is whether its
/// user code's expiry has passed.
#[derive(Debug)]
pub struct ClaimAttemptRow {
    pub id: String,
    pub identity_id: String,
    pub user_code: String,
    pub user_code_expires_at: String,
    pub status: ClaimAttemptStatus,
    pub past_expiry: bool,
}

/// An attempt is live: stored as pending and not yet past its expiry.
pub open spec fn attempt_is_pending(a: ClaimAttemptRow) -> bool {
    a.status == ClaimAttemptStatus::Pending && !a.past_expiry
}

/// A user code past its expiry is never live, whatever its stored status says (the sweep that
/// marks lapsed attempts expired may not have run yet), and only a stored-pending attempt is.
pub proof fn a_lapsed_code_is_never_pending(a: ClaimAttemptRow)
    ensures
        a.past_expiry ==> !attempt_is_pending(a),
        attempt_is_pending(a) ==> a.status == ClaimAttemptStatus::Pending,
{
}

impl ClaimAttemptRow {
    /// Whether the attempt is still live.
    pub fn is_pending(&self) -> (r: bool)
        ensures
            r == attempt_is_pending(*self),
            self.past_expiry ==> !r,
            r ==> self.status == ClaimAttemptStatus::Pending,
    {
        self.status == ClaimAttemptStatus::Pending && !self.past_expiry
    }
}

/// Why authenticating the account owner failed.
#[derive(Debug)]
pub enum OwnerAuthError {
    /// No usable credential: the guard's own error.
    Unauthenticated(ApiError),
    /// An agent-derived token (never allowed to act as the owner).
    AgentDerived,
    /// A credential below full access (an app password).
    NotFullAccess,
}

} // verus!
