//! The auth.md agent claim ceremony: the agent starts (or resumes) a ceremony with its
//! `claim_token`; the account owner confirms it with the `user_code` the agent showed them.
//!
//! Each function below is one decision of the two routes, taken on what the route has read so far;
//! the route performs the reads and writes in between.

use vstd::prelude::*;
use crate::flow::Stage;
use crate::agent_model::{
    AgentIdentityRow, AgentIdentityStatus, ClaimAttemptRow, ClaimAttemptStatus, OwnerAuthError,
    attempt_is_pending,
};
use crate::error::{AgentAuthError, agent_fails_with, is_agent_server_error};
use crate::text::{lex_le, str_eq, str_le};

verus! {

/// `POST /agent/identity/claim` body.
#[derive(Debug)]
pub struct ClaimInitiateRequest {
    pub claim_token: Option<String>,
    /// Informational email for the ceremony.
    pub email: Option<String>,
}

/// `POST /agent/identity/claim/confirm` body.
#[derive(Debug)]
pub struct ClaimConfirmRequest {
    pub user_code: Option<String>,
    /// Optional cross-check: the registration this `user_code` must belong to.
    pub registration_id: Option<String>,
}

/// A present, non-empty optional field.
pub open spec fn non_empty(v: Option<String>) -> bool {
    v is Some && v->0@.len() > 0
}

/// Initiate, first check: the `claim_token` must be present and non-empty.
pub fn initiate_token(req: &ClaimInitiateRequest) -> (r: Result<&String, AgentAuthError>)
    ensures
        r is Ok <==> non_empty(req.claim_token),
        r is Ok ==> r->Ok_0 == req.claim_token->0,
        r is Err ==> agent_fails_with(r, 400, "invalid_request"@, "missing required field: claim_token"@),
{
    match &req.claim_token {
        Some(t) => if t.as_str().is_empty() {
            Err(AgentAuthError::new(400, "invalid_request", "missing required field: claim_token"))
        } else {
            Ok(t)
        },
        None => Err(AgentAuthError::new(400, "invalid_request", "missing required field: claim_token")),
    }
}

/// The claim token has expired: its stored expiry (`YYYY-MM-DD HH:MM:SS`, which sorts
/// chronologically) is at or before `now` in the same format.
pub open spec fn claim_token_expired(identity: AgentIdentityRow, now: Seq<char>) -> bool {
    identity.claim_token_expires_at is Some && lex_le(identity.claim_token_expires_at->0@, now)
}

/// Initiate, second check, on the identity the token names: unknown and revoked tokens read the
/// same (`invalid_claim_token`), an already-claimed registration is `claimed_or_in_flight`, and an
/// expired token is `claim_expired`.
pub fn initiate_identity(identity: Option<AgentIdentityRow>, now_sqlite: &str) -> (r: Result<
    AgentIdentityRow,
    AgentAuthError,
>)
    ensures
        r is Ok <==> (identity is Some && identity->0.status == AgentIdentityStatus::Active
            && !claim_token_expired(identity->0, now_sqlite@)),
        r is Ok ==> r->Ok_0 == identity->0,
        (identity is None || identity->0.status == AgentIdentityStatus::Revoked) ==> agent_fails_with(
            r,
            400,
            "invalid_claim_token"@,
            "the claim token is unknown"@,
        ),
        (identity is Some && identity->0.status == AgentIdentityStatus::Claimed) ==> agent_fails_with(
            r,
            400,
            "claimed_or_in_flight"@,
            "this registration has already been claimed"@,
        ),
        (identity is Some && identity->0.status == AgentIdentityStatus::Active && claim_token_expired(
            identity->0,
            now_sqlite@,
        )) ==> agent_fails_with(r, 400, "claim_expired"@, "the claim token has expired; re-register"@),
{
    let identity = match identity {
        Some(i) => i,
        None => return Err(AgentAuthError::new(400, "invalid_claim_token", "the claim token is unknown")),
    };
    match identity.status {
        AgentIdentityStatus::Claimed => {
            return Err(
                AgentAuthError::new(
                    400,
                    "claimed_or_in_flight",
                    "this registration has already been claimed",
                ),
            );
        },
        AgentIdentityStatus::Revoked => {
            return Err(AgentAuthError::new(400, "invalid_claim_token", "the claim token is unknown"));
        },
        AgentIdentityStatus::Active => {},
    }
    let expired = match &identity.claim_token_expires_at {
        Some(exp) => str_le(exp.as_str(), now_sqlite),
        None => false,
    };
    if expired {
        return Err(AgentAuthError::new(400, "claim_expired", "the claim token has expired; re-register"));
    }
    Ok(identity)
}

/// Initiate, third decision: resume the identity's latest attempt when it is still pending (the
/// agent gets the same user code back), otherwise open a fresh one.
pub fn resume_attempt(latest: Option<ClaimAttemptRow>) -> (r: Option<ClaimAttemptRow>)
    ensures
        r is Some <==> (latest is Some && attempt_is_pending(latest->0)),
        r is Some ==> r->0 == latest->0,
{
    match latest {
        Some(a) => if a.is_pending() {
            Some(a)
        } else {
            None
        },
        None => None,
    }
}

/// Seconds until the user code expires, never negative: `max(0, expiry - now)`.
pub fn expires_in(expiry_secs: i64, now_secs: i64) -> (r: i64)
    requires
        i64::MIN <= expiry_secs - now_secs <= i64::MAX,
    ensures
        r == if expiry_secs - now_secs > 0 { expiry_secs - now_secs } else { 0 },
{
    let d = expiry_secs - now_secs;
    if d > 0 {
        d
    } else {
        0
    }
}

/// Confirm, first check: only the account owner's own full-access credential may confirm. An
/// agent-derived token is 403 `access_denied`; no usable or a lesser credential is 401.
pub fn confirm_caller(auth: Result<String, OwnerAuthError>) -> (r: Result<String, AgentAuthError>)
    ensures
        r is Ok <==> auth is Ok,
        r is Ok ==> r->Ok_0@ == auth->Ok_0@,
        auth matches Err(OwnerAuthError::AgentDerived) ==> agent_fails_with(
            r,
            403,
            "access_denied"@,
            "agent-derived credentials cannot confirm a claim"@,
        ),
        (auth matches Err(OwnerAuthError::Unauthenticated(_)) || auth matches Err(
            OwnerAuthError::NotFullAccess,
        )) ==> agent_fails_with(
            r,
            401,
            "invalid_token"@,
            "a session or full-access token is required to confirm an agent claim"@,
        ),
{
    match auth {
        Ok(did) => Ok(did),
        Err(OwnerAuthError::AgentDerived) => Err(
            AgentAuthError::new(403, "access_denied", "agent-derived credentials cannot confirm a claim"),
        ),
        Err(_) => Err(
            AgentAuthError::new(
                401,
                "invalid_token",
                "a session or full-access token is required to confirm an agent claim",
            ),
        ),
    }
}

/// Confirm, second check: the `user_code` must be present and non-empty.
pub fn confirm_user_code(req: &ClaimConfirmRequest) -> (r: Result<&String, AgentAuthError>)
    ensures
        r is Ok <==> non_empty(req.user_code),
        r is Ok ==> r->Ok_0 == req.user_code->0,
        r is Err ==> agent_fails_with(r, 400, "invalid_request"@, "missing required field: user_code"@),
{
    match &req.user_code {
        Some(c) => if c.as_str().is_empty() {
            Err(AgentAuthError::new(400, "invalid_request", "missing required field: user_code"))
        } else {
            Ok(c)
        },
        None => Err(AgentAuthError::new(400, "invalid_request", "missing required field: user_code")),
    }
}

/// What confirm's attempt check answers for `attempt`: the attempt itself when it is pending;
/// 400 `invalid_user_code` when the code names none, `claimed_or_in_flight` when it was consumed,
/// `claim_expired` for any other non-pending attempt.
pub open spec fn confirm_attempt_answers(
    attempt: Option<ClaimAttemptRow>,
    r: Result<ClaimAttemptRow, AgentAuthError>,
) -> bool {
    &&& (r is Ok <==> (attempt is Some && attempt_is_pending(attempt->0)))
    &&& (r is Ok ==> r->Ok_0 == attempt->0)
    &&& (attempt is None ==> agent_fails_with(r, 400, "invalid_user_code"@, "the user code is unknown"@))
    &&& ((attempt is Some && !attempt_is_pending(attempt->0) && attempt->0.status
        == ClaimAttemptStatus::Completed) ==> agent_fails_with(
        r,
        400,
        "claimed_or_in_flight"@,
        "this user code has already been used"@,
    ))
    &&& ((attempt is Some && !attempt_is_pending(attempt->0) && attempt->0.status
        != ClaimAttemptStatus::Completed) ==> agent_fails_with(
        r,
        400,
        "claim_expired"@,
        "the user code has expired; restart the claim"@,
    ))
}

/// Confirm, third check, on the attempt the code names: unknown is `invalid_user_code`; an
/// already-consumed attempt is `claimed_or_in_flight`; any other non-pending one (swept, or pending
/// but past expiry) is `claim_expired`.
pub fn confirm_attempt(attempt: Option<ClaimAttemptRow>) -> (r: Result<ClaimAttemptRow, AgentAuthError>)
    ensures
        confirm_attempt_answers(attempt, r),
        (attempt is Some && attempt->0.past_expiry) ==> r is Err,
{
    let attempt = match attempt {
        Some(a) => a,
        None => return Err(AgentAuthError::new(400, "invalid_user_code", "the user code is unknown")),
    };
    if !attempt.is_pending() {
        return Err(
            if attempt.status == ClaimAttemptStatus::Completed {
                AgentAuthError::new(400, "claimed_or_in_flight", "this user code has already been used")
            } else {
                AgentAuthError::new(400, "claim_expired", "the user code has expired; restart the claim")
            },
        );
    }
    Ok(attempt)
}

/// Whom confirming binds the registration to: `None` for a registration already bound to its
/// owner (nothing to bind), the caller for an ownerless anonymous one.
#[derive(Debug)]
pub enum Binding {
    AlreadyBound,
    BindTo(String),
}

/// Confirm, fourth check, on the attempt's identity: a missing identity is a server fault; a
/// `registration_id` cross-check that names another registration is 400; claimed and revoked
/// identities are refused; an identity bound to another account is 403. An ownerless identity is
/// bound to the caller — the user code they were shown is the authorization.
pub fn confirm_identity(identity: Option<AgentIdentityRow>, req: &ClaimConfirmRequest, caller: &str) -> (r:
    Result<(AgentIdentityRow, Binding), AgentAuthError>)
    ensures
        identity is None ==> r is Err && is_agent_server_error(r->Err_0),
        r is Ok <==> (identity is Some && (non_empty(req.registration_id)
            ==> req.registration_id->0@ == identity->0.id@) && identity->0.status
            == AgentIdentityStatus::Active && (identity->0.did is Some ==> identity->0.did->0@
            == caller@)),
        r is Ok ==> (r->Ok_0).0 == identity->0,
        r is Ok ==> (match (r->Ok_0).1 {
            Binding::AlreadyBound => identity->0.did is Some,
            Binding::BindTo(d) => identity->0.did is None && d@ == caller@,
        }),
        (identity is Some && non_empty(req.registration_id) && req.registration_id->0@
            != identity->0.id@) ==> agent_fails_with(
            r,
            400,
            "invalid_request"@,
            "registration_id does not match this user code"@,
        ),
        (identity is Some && (non_empty(req.registration_id) ==> req.registration_id->0@
            == identity->0.id@) && identity->0.status == AgentIdentityStatus::Claimed)
            ==> agent_fails_with(
            r,
            400,
            "claimed_or_in_flight"@,
            "this registration has already been claimed"@,
        ),
        (identity is Some && (non_empty(req.registration_id) ==> req.registration_id->0@
            == identity->0.id@) && identity->0.status == AgentIdentityStatus::Revoked)
            ==> agent_fails_with(r, 403, "access_denied"@, "this agent identity has been revoked"@),
        (identity is Some && (non_empty(req.registration_id) ==> req.registration_id->0@
            == identity->0.id@) && identity->0.status == AgentIdentityStatus::Active
            && identity->0.did is Some && identity->0.did->0@ != caller@) ==> agent_fails_with(
            r,
            403,
            "access_denied"@,
            "this claim is bound to a different account"@,
        ),
{
    let identity = match identity {
        Some(i) => i,
        None => return Err(AgentAuthError::server_error()),
    };
    if let Some(req_reg) = &req.registration_id {
        if !req_reg.as_str().is_empty() && !str_eq(req_reg.as_str(), identity.id.as_str()) {
            return Err(
                AgentAuthError::new(400, "invalid_request", "registration_id does not match this user code"),
            );
        }
    }
    match identity.status {
        AgentIdentityStatus::Claimed => {
            return Err(
                AgentAuthError::new(
                    400,
                    "claimed_or_in_flight",
                    "this registration has already been claimed",
                ),
            );
        },
        AgentIdentityStatus::Revoked => {
            return Err(AgentAuthError::new(403, "access_denied", "this agent identity has been revoked"));
        },
        AgentIdentityStatus::Active => {},
    }
    let binding = match &identity.did {
        Some(bound) => {
            if !str_eq(bound.as_str(), caller) {
                return Err(
                    AgentAuthError::new(403, "access_denied", "this claim is bound to a different account"),
                );
            }
            Binding::AlreadyBound
        },
        None => Binding::BindTo(crate::text::owned(caller)),
    };
    Ok((identity, binding))
}

/// Confirm, last check, on the two guarded writes of the claim transaction (consume the pending
/// attempt, then claim the active identity): a lost race on either is 409.
pub fn confirm_commit(attempt_completed: bool, identity_claimed: bool) -> (r: Result<(), AgentAuthError>)
    ensures
        r is Ok <==> (attempt_completed && identity_claimed),
        !attempt_completed ==> agent_fails_with(
            r,
            409,
            "claimed_or_in_flight"@,
            "this claim attempt is no longer pending"@,
        ),
        attempt_completed && !identity_claimed ==> agent_fails_with(
            r,
            409,
            "claimed_or_in_flight"@,
            "this registration is no longer active"@,
        ),
{
    if !attempt_completed {
        return Err(
            AgentAuthError::new(409, "claimed_or_in_flight", "this claim attempt is no longer pending"),
        );
    }
    if !identity_claimed {
        return Err(AgentAuthError::new(409, "claimed_or_in_flight", "this registration is no longer active"));
    }
    Ok(())
}

/// The attempt a committed confirm leaves behind: the claim transaction's guarded write (the one
/// `confirm_commit` requires to have taken) moves it from pending to completed, nothing else.
pub open spec fn consumed_attempt(a: ClaimAttemptRow) -> ClaimAttemptRow {
    ClaimAttemptRow {
        id: a.id,
        identity_id: a.identity_id,
        user_code: a.user_code,
        user_code_expires_at: a.user_code_expires_at,
        status: ClaimAttemptStatus::Completed,
        past_expiry: a.past_expiry,
    }
}

/// A user code confirms once: once a confirm has committed, the attempt its code names is the
/// consumed one, and a second confirm with that code is refused, 400 `claimed_or_in_flight`; a
/// code that names no attempt is refused, 400 `invalid_user_code`.
pub proof fn a_user_code_confirms_once(a: ClaimAttemptRow)
    ensures
        forall|r: Result<ClaimAttemptRow, AgentAuthError>|
            #[trigger] confirm_attempt_answers(Some(consumed_attempt(a)), r) ==> agent_fails_with(
                r,
                400,
                "claimed_or_in_flight"@,
                "this user code has already been used"@,
            ),
        forall|r: Result<ClaimAttemptRow, AgentAuthError>|
            #[trigger] confirm_attempt_answers(None, r) ==> agent_fails_with(
                r,
                400,
                "invalid_user_code"@,
                "the user code is unknown"@,
            ),
{
}

/// A lapsed user code confirms nothing: an attempt past its expiry is refused 400 `claim_expired`
/// unless it was already consumed (then `claimed_or_in_flight`); it is never accepted.
pub proof fn a_lapsed_code_is_refused(a: ClaimAttemptRow)
    ensures
        forall|r: Result<ClaimAttemptRow, AgentAuthError>|
            #[trigger] confirm_attempt_answers(Some(a), r) && a.past_expiry ==> r is Err,
        forall|r: Result<ClaimAttemptRow, AgentAuthError>|
            #[trigger] confirm_attempt_answers(Some(a), r) && a.past_expiry && a.status
                != ClaimAttemptStatus::Completed ==> agent_fails_with(
                r,
                400,
                "claim_expired"@,
                "the user code has expired; restart the claim"@,
            ),
{
    crate::agent_model::a_lapsed_code_is_never_pending(a);
}

/// The claim-attempt block of the initiate answer.
#[derive(Debug)]
pub struct ClaimAttemptBlock {
    pub user_code: String,
    pub expires_in: i64,
    pub verification_uri: String,
    pub interval: u64,
}

/// The initiate answer.
#[derive(Debug)]
pub struct ClaimInitiateResponse {
    pub registration_id: String,
    pub claim_attempt_id: String,
    pub status: &'static str,
    pub expires_at: String,
    pub claim_attempt: ClaimAttemptBlock,
}

/// The initiate answer: the ceremony of registration `registration_id` is `initiated` with claim
/// attempt `attempt_id`, whose user code `user_code` expires at `expires_at` (RFC 3339), in
/// `expires_in` seconds; the user enters it at `verification_uri`, and the agent polls every
/// `interval` seconds.
pub fn initiate_response(
    registration_id: String,
    attempt_id: String,
    expires_at: String,
    user_code: String,
    expires_in: i64,
    verification_uri: String,
    interval: u64,
) -> (r: ClaimInitiateResponse)
    ensures
        r.registration_id@ == registration_id@,
        r.claim_attempt_id@ == attempt_id@,
        r.status@ == "initiated"@,
        r.expires_at@ == expires_at@,
        r.claim_attempt.user_code@ == user_code@,
        r.claim_attempt.expires_in == expires_in,
        r.claim_attempt.verification_uri@ == verification_uri@,
        r.claim_attempt.interval == interval,
{
    ClaimInitiateResponse {
        registration_id,
        claim_attempt_id: attempt_id,
        status: "initiated",
        expires_at,
        claim_attempt: ClaimAttemptBlock { user_code, expires_in, verification_uri, interval },
    }
}

/// The confirm answer.
#[derive(Debug)]
pub struct ClaimConfirmResponse {
    pub registration_id: String,
    pub status: &'static str,
    pub did: String,
}

/// The confirm answer: the registration is `claimed` by the caller.
pub fn confirm_response(registration_id: String, caller: String) -> (r: ClaimConfirmResponse)
    ensures
        r.registration_id@ == registration_id@,
        r.status@ == "claimed"@,
        r.did@ == caller@,
{
    ClaimConfirmResponse { registration_id, status: "claimed", did: caller }
}

/// The poll marks of the claim-grant throttle: which claim tokens polled, and when (Unix seconds).
#[derive(Debug)]
pub struct PollTracker {
    pub marks: Vec<(String, i64)>,
}

/// Drop every poll mark, as if each token's poll interval had elapsed.
pub fn reset_poll_throttle(tracker: &mut PollTracker)
    ensures
        final(tracker).marks@.len() == 0,
{
    tracker.marks.clear();
}


/// The stages of starting (or resuming) a claim ceremony, in order.
#[derive(Clone, Copy, Debug, PartialEq, Eq, Structural)]
pub enum InitiateStage {
    /// The request must carry a claim token.
    ReadClaimToken,
    /// The registration it names must exist, be active and ownerless-or-claimable, and its claim token unexpired.
    LoadIdentity,
    /// Resume the in-flight attempt, or open a fresh one with a new user code.
    OpenAttempt,
    /// The user code and the seconds until it expires.
    Answer,
}

impl Stage for InitiateStage {
    open spec fn successor(self) -> Option<InitiateStage> {
        match self {
            InitiateStage::ReadClaimToken => Some(InitiateStage::LoadIdentity),
            InitiateStage::LoadIdentity => Some(InitiateStage::OpenAttempt),
            InitiateStage::OpenAttempt => Some(InitiateStage::Answer),
            InitiateStage::Answer => None,
        }
    }

    fn following(&self) -> (r: Option<InitiateStage>) {
        match self {
            InitiateStage::ReadClaimToken => Some(InitiateStage::LoadIdentity),
            InitiateStage::LoadIdentity => Some(InitiateStage::OpenAttempt),
            InitiateStage::OpenAttempt => Some(InitiateStage::Answer),
            InitiateStage::Answer => None,
        }
    }
}

/// The stages of confirming a claim, in order.
#[derive(Clone, Copy, Debug, PartialEq, Eq, Structural)]
pub enum ConfirmStage {
    /// Only the account holder's own full-access credential may confirm.
    AuthenticateCaller,
    ReadUserCode,
    /// The attempt must exist and be pending.
    LoadAttempt,
    /// Its registration, matching any named registration id, still claimable, and bindable to the caller.
    LoadIdentity,
    /// The post-claim assertion with the operator's current granted scopes.
    MintAssertion,
    Begin,
    /// Consume the pending attempt (a lost race rolls back).
    CompleteAttempt,
    /// Claim the identity for the caller (a lost race rolls back).
    ClaimIdentity,
    /// The confirmation audit row, in the same transaction.
    Audit,
    Commit,
}

impl Stage for ConfirmStage {
    open spec fn successor(self) -> Option<ConfirmStage> {
        match self {
            ConfirmStage::AuthenticateCaller => Some(ConfirmStage::ReadUserCode),
            ConfirmStage::ReadUserCode => Some(ConfirmStage::LoadAttempt),
            ConfirmStage::LoadAttempt => Some(ConfirmStage::LoadIdentity),
            ConfirmStage::LoadIdentity => Some(ConfirmStage::MintAssertion),
            ConfirmStage::MintAssertion => Some(ConfirmStage::Begin),
            ConfirmStage::Begin => Some(ConfirmStage::CompleteAttempt),
            ConfirmStage::CompleteAttempt => Some(ConfirmStage::ClaimIdentity),
            ConfirmStage::ClaimIdentity => Some(ConfirmStage::Audit),
            ConfirmStage::Audit => Some(ConfirmStage::Commit),
            ConfirmStage::Commit => None,
        }
    }

    fn following(&self) -> (r: Option<ConfirmStage>) {
        match self {
            ConfirmStage::AuthenticateCaller => Some(ConfirmStage::ReadUserCode),
            ConfirmStage::ReadUserCode => Some(ConfirmStage::LoadAttempt),
            ConfirmStage::LoadAttempt => Some(ConfirmStage::LoadIdentity),
            ConfirmStage::LoadIdentity => Some(ConfirmStage::MintAssertion),
            ConfirmStage::MintAssertion => Some(ConfirmStage::Begin),
            ConfirmStage::Begin => Some(ConfirmStage::CompleteAttempt),
            ConfirmStage::CompleteAttempt => Some(ConfirmStage::ClaimIdentity),
            ConfirmStage::ClaimIdentity => Some(ConfirmStage::Audit),
            ConfirmStage::Audit => Some(ConfirmStage::Commit),
            ConfirmStage::Commit => None,
        }
    }
}

} // verus!
