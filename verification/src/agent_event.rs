//! `POST /agent/event/notify` — a trusted identity provider pushes a Security Event Token (SET,
//! `application/secevent+jwt`) and, for the revocation event type, the matching
//! `identity_assertion` registration is revoked. A SET naming an unknown or already revoked
//! subject is still accepted with no change, so a replay is harmless. Failures are answered in
//! the SET-delivery shape `{err, description}`.

use vstd::prelude::*;
use crate::agent_identity::{TrustedIssuer, issuer_index, unverified_claim, unverified_claim_spec};
use crate::boundary::{utf8_text, utf8_text_of};
use crate::flow::Stage;
use crate::text::{eq_ignore_ascii_case, eq_ignore_ascii_case_spec, nth_piece, owned, str_eq, trim, trim_spec};

verus! {

/// The media type a SET is delivered as.
pub open spec fn secevent_content_type() -> Seq<char> {
    "application/secevent+jwt"@
}

/// A SET-delivery error: an HTTP status, an `err` code and a description.
#[derive(Debug)]
pub struct SetError {
    pub status: u16,
    pub err: &'static str,
    pub description: String,
}

/// `e` is the 400 SET error `err` with this description.
pub open spec fn is_set_error(e: SetError, err: Seq<char>, description: Seq<char>) -> bool {
    e.status == 400 && e.err@ == err && e.description@ == description
}

/// `e` is the 500 server error.
pub open spec fn is_set_server_error(e: SetError) -> bool {
    e.status == 500 && e.err@ == "server_error"@ && e.description@ == "internal server error"@
}

impl SetError {
    /// A 400 with this code and description.
    pub fn new(err: &'static str, description: &str) -> (e: SetError)
        ensures
            is_set_error(e, err@, description@),
    {
        SetError { status: 400, err, description: owned(description) }
    }

    /// A 400 `invalid_request`.
    pub fn invalid_request(description: &str) -> (e: SetError)
        ensures
            is_set_error(e, "invalid_request"@, description@),
    {
        SetError::new("invalid_request", description)
    }

    /// A 500 `server_error`.
    pub fn server_error() -> (e: SetError)
        ensures
            is_set_server_error(e),
    {
        SetError { status: 500, err: "server_error", description: owned("internal server error") }
    }
}

/// The essence of a content type: the text before its first `;`, trimmed.
pub open spec fn content_type_essence(ct: Seq<char>) -> Seq<char> {
    trim_spec(nth_piece(ct, ';', 0)->0)
}

/// The first `;`-piece of `s` (`s.split(';').next()`, which always yields one).
fn first_piece(s: &str) -> (r: String)
    ensures
        nth_piece(s@, ';', 0) == Some(r@),
{
    match crate::text::split_once_char(s, ';') {
        Some((head, _tail)) => head,
        None => owned(s),
    }
}

/// The content type must be `application/secevent+jwt` (any case, parameters allowed) when the
/// header is there; an absent one is tolerated (the signature is the real boundary). `header` is
/// `None` without the header and `Some(None)` when its value is not visible ASCII text.
pub fn check_content_type(header: Option<Option<&str>>) -> (r: Result<(), SetError>)
    ensures
        match header {
            None => r is Ok,
            Some(None) => r matches Err(e) && is_set_error(
                e,
                "invalid_request"@,
                "content type must be application/secevent+jwt"@,
            ),
            Some(Some(ct)) => if eq_ignore_ascii_case_spec(content_type_essence(ct@), secevent_content_type()) {
                r is Ok
            } else {
                r matches Err(e) && is_set_error(
                    e,
                    "invalid_request"@,
                    "content type must be application/secevent+jwt"@,
                )
            },
        },
{
    match header {
        None => Ok(()),
        Some(None) => {
            proof {
                reveal_strlit("application/secevent+jwt");
            }
            Err(SetError::invalid_request("content type must be application/secevent+jwt"))
        },
        Some(Some(ct)) => {
            let piece = first_piece(ct);
            let essence = trim(piece.as_str());
            if eq_ignore_ascii_case(essence.as_str(), "application/secevent+jwt") {
                Ok(())
            } else {
                Err(SetError::invalid_request("content type must be application/secevent+jwt"))
            }
        },
    }
}

/// The token a body carries: its UTF-8 text, trimmed, which must not be blank.
pub fn set_token(body: &[u8]) -> (r: Result<String, SetError>)
    ensures
        match utf8_text_of(body@) {
            Some(t) if trim_spec(t).len() > 0 => r matches Ok(v) && v@ == trim_spec(t),
            _ => r matches Err(e) && is_set_error(
                e,
                "invalid_request"@,
                "request body must be a Security Event Token"@,
            ),
        },
{
    match utf8_text(body) {
        Some(t) => {
            let v = trim(t.as_str());
            if v.as_str().is_empty() {
                Err(SetError::invalid_request("request body must be a Security Event Token"))
            } else {
                Ok(v)
            }
        },
        None => Err(SetError::invalid_request("request body must be a Security Event Token")),
    }
}

/// The SET's unverified `iss`, read to pick the issuer before any signature work.
pub fn set_issuer(token: &str) -> (r: Result<String, SetError>)
    ensures
        match unverified_claim_spec(token@, "iss"@) {
            Some(i) => r matches Ok(v) && v@ == i,
            None => r matches Err(e) && is_set_error(
                e,
                "invalid_request"@,
                "SET is malformed or missing an iss claim"@,
            ),
        },
{
    match unverified_claim(token, "iss") {
        Some(i) => Ok(i),
        None => Err(SetError::invalid_request("SET is malformed or missing an iss claim")),
    }
}

/// The trusted issuer named `iss` (the first configured with that name); an issuer not on the
/// trust list is `invalid_issuer`.
pub fn trusted_set_issuer<'a>(trusted: &'a [TrustedIssuer], iss: &str) -> (r: Result<&'a TrustedIssuer, SetError>)
    ensures
        match issuer_index(trusted@, iss@) {
            Some(i) => r matches Ok(t) && *t == trusted@[i],
            None => r matches Err(e) && is_set_error(
                e,
                "invalid_issuer"@,
                "the SET issuer is not on this server's trust list"@,
            ),
        },
{
    match crate::agent_identity::select_issuer(trusted, iss) {
        Ok(t) => Ok(t),
        Err(_) => Err(SetError::new("invalid_issuer", "the SET issuer is not on this server's trust list")),
    }
}

/// Why verifying a trusted JWT failed.
#[derive(Debug)]
pub enum TrustedJwtError {
    /// An unusable configured key, or a transport failure fetching keys.
    ServerError,
    /// The signing key is not in the issuer's key set.
    UnknownKey,
    /// A failed signature or claim check.
    Invalid(String),
}

/// A verification failure as a SET error: the server's own faults are 500s; an unknown key or a
/// failed check is `authentication_failed`.
pub fn map_set_verify_err(err: TrustedJwtError) -> (e: SetError)
    ensures
        match err {
            TrustedJwtError::ServerError => is_set_server_error(e),
            _ => is_set_error(e, "authentication_failed"@, "the SET signature could not be verified"@),
        },
{
    match err {
        TrustedJwtError::ServerError => SetError::server_error(),
        TrustedJwtError::UnknownKey | TrustedJwtError::Invalid(_) => SetError::new(
            "authentication_failed",
            "the SET signature could not be verified",
        ),
    }
}

/// The `subject` member of an event payload, as far as it names a subject.
#[derive(Debug)]
pub enum EventSubject {
    Text(String),
    /// An object subject identifier, with its `sub` member when that is a string.
    Object(Option<String>),
    Other,
}

/// The verified claims read: `sub`, and each event type with its payload's `subject` member (if
/// the payload is an object holding one). Event types are the keys of a JSON object.
#[derive(Debug)]
pub struct SetClaims {
    pub sub: Option<String>,
    pub events: Vec<(String, Option<EventSubject>)>,
}

/// The index of the event named `typ`.
pub open spec fn event_index(events: Seq<(String, Option<EventSubject>)>, typ: Seq<char>) -> Option<int> {
    if exists|i: int| 0 <= i < events.len() && #[trigger] events[i].0@ == typ {
        Some(choose|i: int| 0 <= i < events.len() && #[trigger] events[i].0@ == typ)
    } else {
        None
    }
}

fn find_event(events: &Vec<(String, Option<EventSubject>)>, typ: &str) -> (r: Option<usize>)
    ensures
        match r {
            Some(i) => i < events@.len() && events@[i as int].0@ == typ@,
            None => event_index(events@, typ@) is None,
        },
{
    let mut i: usize = 0;
    while i < events.len()
        invariant
            i <= events@.len(),
            forall|j: int| 0 <= j < i ==> #[trigger] events@[j].0@ != typ@,
        decreases events@.len() - i,
    {
        if str_eq(events[i].0.as_str(), typ) {
            return Some(i);
        }
        i = i + 1;
    }
    None
}

/// The SET must carry the revocation event type.
pub fn require_revocation_event(claims: &SetClaims, revoked_type: &str) -> (r: Result<(), SetError>)
    ensures
        event_index(claims.events@, revoked_type@) is Some ==> r is Ok,
        event_index(claims.events@, revoked_type@) is None ==> (r matches Err(e) && is_set_error(
            e,
            "invalid_request"@,
            "the SET does not carry a supported event type"@,
        )),
{
    match find_event(&claims.events, revoked_type) {
        Some(_) => Ok(()),
        None => Err(SetError::invalid_request("the SET does not carry a supported event type")),
    }
}

/// The subject a revocation targets: a non-empty top-level `sub`; else the revocation event's
/// `subject`, either a non-empty string or an object whose `sub` is a non-empty string. (Event
/// types are distinct keys, so which entry named `revoked_type` is read does not matter.)
pub open spec fn subject_of(sub: Option<Seq<char>>, event: Option<Option<EventSubject>>) -> Option<Seq<char>> {
    match sub {
        Some(s) if s.len() > 0 => Some(s),
        _ => match event {
            Some(Some(EventSubject::Text(s))) => if s@.len() > 0 {
                Some(s@)
            } else {
                None
            },
            Some(Some(EventSubject::Object(Some(s)))) => if s@.len() > 0 {
                Some(s@)
            } else {
                None
            },
            _ => None,
        },
    }
}

/// The subject the SET asks to revoke, per [`subject_of`] with the event found under
/// `revoked_type`; none is an `invalid_request`.
pub fn revocation_subject(claims: &SetClaims, revoked_type: &str) -> (r: Result<String, SetError>)
    ensures
        match claims.sub {
            Some(s) if s@.len() > 0 => r matches Ok(v) && v@ == s@,
            _ => match event_index(claims.events@, revoked_type@) {
                None => r matches Err(e) && is_set_error(e, "invalid_request"@, "the SET names no subject to revoke"@),
                Some(_) => exists|i: int| 0 <= i < claims.events@.len() && #[trigger] claims.events@[i].0@
                    == revoked_type@ && match subject_of(None, Some(claims.events@[i].1)) {
                    Some(t) => r matches Ok(v) && v@ == t,
                    None => r matches Err(e) && is_set_error(
                        e,
                        "invalid_request"@,
                        "the SET names no subject to revoke"@,
                    ),
                },
            },
        },
{
    match &claims.sub {
        Some(s) => if !s.as_str().is_empty() {
            return Ok(owned(s.as_str()));
        },
        None => {},
    }
    let i = match find_event(&claims.events, revoked_type) {
        Some(i) => i,
        None => return Err(SetError::invalid_request("the SET names no subject to revoke")),
    };
    assert(claims.events@[i as int].0@ == revoked_type@);
    match &claims.events[i].1 {
        Some(EventSubject::Text(s)) => if !s.as_str().is_empty() {
            Ok(owned(s.as_str()))
        } else {
            Err(SetError::invalid_request("the SET names no subject to revoke"))
        },
        Some(EventSubject::Object(Some(s))) => if !s.as_str().is_empty() {
            Ok(owned(s.as_str()))
        } else {
            Err(SetError::invalid_request("the SET names no subject to revoke"))
        },
        _ => Err(SetError::invalid_request("the SET names no subject to revoke")),
    }
}

/// What the registration lookup answers: a failed lookup is a server error; otherwise the
/// registration found, if any.
pub open spec fn revocation_target_answers<T>(lookup: Result<Option<T>, ()>, r: Result<Option<T>, SetError>) -> bool {
    match lookup {
        Err(_) => r matches Err(e) && is_set_server_error(e),
        Ok(t) => r == Ok::<Option<T>, SetError>(t),
    }
}

/// The registration the provider vouched for; a failed lookup is a server error, and an unknown
/// `(issuer, subject)` is accepted as a no-op (`Ok(None)`: no existence oracle).
pub fn revocation_target<T>(lookup: Result<Option<T>, ()>) -> (r: Result<Option<T>, SetError>)
    ensures
        revocation_target_answers(lookup, r),
{
    match lookup {
        Err(_) => Err(SetError::server_error()),
        Ok(t) => Ok(t),
    }
}

/// The audit detail of a provider-driven revocation.
pub fn provider_revocation_detail() -> (r: String)
    ensures
        r@ == "{\"source\":\"provider_set\"}"@,
{
    owned("{\"source\":\"provider_set\"}")
}

/// Whether a revocation that `transitioned` the status is audited: exactly when it did.
pub open spec fn audit_answers(transitioned: bool, r: bool) -> bool {
    r == transitioned
}

/// A revocation is audited only when it changed the status (a repeat SET is an idempotent no-op
/// with no second audit row).
pub fn audit_revocation(transitioned: bool) -> (r: bool)
    ensures
        audit_answers(transitioned, r),
{
    transitioned
}

/// Revoking a registration whose status is `revoked`: the guarded status write transitions it
/// only when it was not revoked yet, and it is revoked after.
pub open spec fn revocation_of(revoked: bool) -> (bool, bool) {
    (!revoked, true)
}

/// A provider revocation is audited once: delivering the same revocation SET twice audits the
/// first delivery's transition of a live registration and not the second, which finds it revoked
/// already; a SET whose subject names no registration is accepted and leads to no revocation.
pub proof fn a_revocation_is_audited_once<T>(revoked: bool)
    ensures
        forall|first: bool, second: bool|
            #![trigger audit_answers(revocation_of(revoked).0, first), audit_answers(revocation_of(revocation_of(revoked).1).0, second)]
            audit_answers(revocation_of(revoked).0, first) && audit_answers(
                revocation_of(revocation_of(revoked).1).0,
                second,
            ) ==> (first <==> !revoked) && !second,
        forall|r: Result<Option<T>, SetError>|
            #[trigger] revocation_target_answers(Ok::<Option<T>, ()>(None), r) ==> r == Ok::<Option<T>, SetError>(None),
{
}

/// The stages of processing a SET, in order.
#[derive(Clone, Copy, Debug, PartialEq, Eq, Structural)]
pub enum SetStage {
    CheckContentType,
    ReadToken,
    /// Read the unverified `iss` and pick the trusted issuer.
    SelectIssuer,
    /// Verify signature, `iss` and `aud` (and `exp` when present).
    Verify,
    RequireRevocationEvent,
    FindSubject,
    /// Look up the registration (none: accept as a no-op).
    LookupRegistration,
    /// Revoke and audit in one transaction.
    Revoke,
}

impl Stage for SetStage {
    open spec fn successor(self) -> Option<SetStage> {
        match self {
            SetStage::CheckContentType => Some(SetStage::ReadToken),
            SetStage::ReadToken => Some(SetStage::SelectIssuer),
            SetStage::SelectIssuer => Some(SetStage::Verify),
            SetStage::Verify => Some(SetStage::RequireRevocationEvent),
            SetStage::RequireRevocationEvent => Some(SetStage::FindSubject),
            SetStage::FindSubject => Some(SetStage::LookupRegistration),
            SetStage::LookupRegistration => Some(SetStage::Revoke),
            SetStage::Revoke => None,
        }
    }

    fn following(&self) -> (r: Option<SetStage>) {
        match self {
            SetStage::CheckContentType => Some(SetStage::ReadToken),
            SetStage::ReadToken => Some(SetStage::SelectIssuer),
            SetStage::SelectIssuer => Some(SetStage::Verify),
            SetStage::Verify => Some(SetStage::RequireRevocationEvent),
            SetStage::RequireRevocationEvent => Some(SetStage::FindSubject),
            SetStage::FindSubject => Some(SetStage::LookupRegistration),
            SetStage::LookupRegistration => Some(SetStage::Revoke),
            SetStage::Revoke => None,
        }
    }
}

} // verus!
