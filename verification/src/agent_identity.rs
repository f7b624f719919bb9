//! `POST /agent/identity` — auth.md agent registration. Three flows, selected by `type`:
//! `identity_assertion` (an ID-JAG from a trusted provider), `service_auth` (the user's email as
//! `login_hint`) and `anonymous` (an ownerless pre-claim identity).
//!
//! The functions below are the route's decisions, each taken on what has been read so far.

use vstd::prelude::*;
use crate::flow::Stage;
use crate::agent_model::{AgentIdentityRow, AgentIdentityStatus, RegistrationType};
use crate::boundary::{
    base64url_bytes, base64url_decode, base64url_encode, base64url_text, ec_pem_accepts, ec_pem_key,
    ed_pem_accepts, ed_pem_key, rsa_pem_accepts,
    json_string_member, json_string_member_of, random_bytes, rsa_pem_key, uuid_v4_simple,
    is_base64url_char, uuid_hex, uuid_v4_bytes,
};
use crate::ids::{lemma_base64url_text_shape, lemma_uuid_hex_shape, random_16};
use crate::error::{AgentAuthError, agent_fails_with, is_agent_error, is_agent_server_error};
use crate::text::{
    debug_str, debug_text, nth_piece, owned, second_piece, str_eq, trim_end_char, trim_end_char_spec,
};

verus! {

/// The one assertion type the `identity_assertion` flow accepts.
pub open spec fn id_jag_assertion_type() -> Seq<char> {
    "urn:ietf:params:oauth:token-type:id-jag"@
}

/// `POST /agent/identity` body; every field optional so a missing `type` gets an auth.md error.
#[derive(Debug)]
pub struct AgentIdentityRequest {
    pub typ: Option<String>,
    pub assertion_type: Option<String>,
    pub assertion: Option<String>,
    pub login_hint: Option<String>,
}

/// Dispatch on the registration `type`: one of the three flows, else 400 `invalid_request`.
pub fn registration_flow(typ: Option<&str>) -> (r: Result<RegistrationType, AgentAuthError>)
    ensures
        typ is None ==> agent_fails_with(r, 400, "invalid_request"@, "missing required field: type"@),
        typ is Some && typ->0@ == "identity_assertion"@ ==> r == Ok::<RegistrationType, AgentAuthError>(
            RegistrationType::IdentityAssertion,
        ),
        typ is Some && typ->0@ == "service_auth"@ ==> r == Ok::<RegistrationType, AgentAuthError>(
            RegistrationType::ServiceAuth,
        ),
        typ is Some && typ->0@ == "anonymous"@ ==> r == Ok::<RegistrationType, AgentAuthError>(
            RegistrationType::Anonymous,
        ),
        typ is Some && typ->0@ != "identity_assertion"@ && typ->0@ != "service_auth"@ && typ->0@
            != "anonymous"@ ==> agent_fails_with(
            r,
            400,
            "invalid_request"@,
            "unsupported registration type: "@ + debug_text(typ->0@),
        ),
{
    match typ {
        None => Err(AgentAuthError::new(400, "invalid_request", "missing required field: type")),
        Some(t) => {
            proof {
                reveal_strlit("identity_assertion");
                reveal_strlit("service_auth");
                reveal_strlit("anonymous");
                assert("identity_assertion"@.len() != "service_auth"@.len());
                assert("identity_assertion"@.len() != "anonymous"@.len());
                assert("service_auth"@.len() != "anonymous"@.len());
            }
            if str_eq(t, "identity_assertion") {
                Ok(RegistrationType::IdentityAssertion)
            } else if str_eq(t, "service_auth") {
                Ok(RegistrationType::ServiceAuth)
            } else if str_eq(t, "anonymous") {
                Ok(RegistrationType::Anonymous)
            } else {
                let mut d = owned("unsupported registration type: ");
                let q = debug_str(t);
                d.append(q.as_str());
                Err(
                    AgentAuthError::Rejected {
                        status: 400,
                        error: owned("invalid_request"),
                        description: d,
                    },
                )
            }
        },
    }
}

/// The `anonymous` flow must be switched on.
pub fn require_anonymous_enabled(enabled: bool) -> (r: Result<(), AgentAuthError>)
    ensures
        r is Ok <==> enabled,
        !enabled ==> agent_fails_with(
            r,
            400,
            "anonymous_not_enabled"@,
            "anonymous agent registration is not enabled on this server"@,
        ),
{
    if enabled {
        Ok(())
    } else {
        Err(
            AgentAuthError::new(
                400,
                "anonymous_not_enabled",
                "anonymous agent registration is not enabled on this server",
            ),
        )
    }
}

/// The `service_auth` flow must be switched on and carry a non-empty `login_hint`.
pub fn service_auth_login_hint(enabled: bool, req: &AgentIdentityRequest) -> (r: Result<&String, AgentAuthError>)
    ensures
        r is Ok <==> (enabled && req.login_hint is Some && req.login_hint->0@.len() > 0),
        r is Ok ==> r->Ok_0 == req.login_hint->0,
        !enabled ==> agent_fails_with(
            r,
            400,
            "service_auth_not_enabled"@,
            "service_auth agent registration is not enabled on this server"@,
        ),
        enabled && (req.login_hint is None || req.login_hint->0@.len() == 0) ==> agent_fails_with(
            r,
            400,
            "invalid_request"@,
            "service_auth requires a non-empty login_hint"@,
        ),
{
    if !enabled {
        return Err(
            AgentAuthError::new(
                400,
                "service_auth_not_enabled",
                "service_auth agent registration is not enabled on this server",
            ),
        );
    }
    match &req.login_hint {
        Some(h) => if h.as_str().is_empty() {
            Err(AgentAuthError::new(400, "invalid_request", "service_auth requires a non-empty login_hint"))
        } else {
            Ok(h)
        },
        None => Err(AgentAuthError::new(400, "invalid_request", "service_auth requires a non-empty login_hint")),
    }
}

/// The identity must be owned by an existing local account: no account matches `login_hint` →
/// 400 `access_denied`. On success, the account's DID.
pub fn service_auth_account(account_did: Option<String>) -> (r: Result<String, AgentAuthError>)
    ensures
        r is Ok <==> account_did is Some,
        r is Ok ==> r->Ok_0@ == account_did->0@,
        r is Err ==> agent_fails_with(r, 400, "access_denied"@, "no local account matches login_hint"@),
{
    match account_did {
        Some(d) => Ok(d),
        None => Err(AgentAuthError::new(400, "access_denied", "no local account matches login_hint")),
    }
}

/// A freshly generated registration id or claim token collided with a stored one: a transient
/// server fault rather than a client error.
pub fn check_inserted(duplicate: bool) -> (r: Result<(), AgentAuthError>)
    ensures
        r is Ok <==> !duplicate,
        r is Err ==> is_agent_server_error(r->Err_0),
{
    if duplicate {
        Err(AgentAuthError::server_error())
    } else {
        Ok(())
    }
}

/// The `identity_assertion` request checks: a named `assertion_type` must be the ID-JAG type,
/// and the assertion must be present and non-empty.
pub fn identity_assertion_input(req: &AgentIdentityRequest) -> (r: Result<&String, AgentAuthError>)
    ensures
        r is Ok <==> ((req.assertion_type is Some ==> req.assertion_type->0@ == id_jag_assertion_type())
            && req.assertion is Some && req.assertion->0@.len() > 0),
        r is Ok ==> r->Ok_0 == req.assertion->0,
        req.assertion_type is Some && req.assertion_type->0@ != id_jag_assertion_type()
            ==> agent_fails_with(
            r,
            400,
            "invalid_request"@,
            "unsupported assertion_type: "@ + debug_text(req.assertion_type->0@),
        ),
        (req.assertion_type is Some ==> req.assertion_type->0@ == id_jag_assertion_type()) && (
        req.assertion is None || req.assertion->0@.len() == 0) ==> agent_fails_with(
            r,
            400,
            "invalid_request"@,
            "identity_assertion requires a non-empty assertion"@,
        ),
{
    if let Some(kind) = &req.assertion_type {
        if !str_eq(kind.as_str(), "urn:ietf:params:oauth:token-type:id-jag") {
            let mut d = owned("unsupported assertion_type: ");
            let q = debug_str(kind.as_str());
            d.append(q.as_str());
            return Err(
                AgentAuthError::Rejected { status: 400, error: owned("invalid_request"), description: d },
            );
        }
    }
    match &req.assertion {
        Some(a) => if a.as_str().is_empty() {
            Err(
                AgentAuthError::new(
                    400,
                    "invalid_request",
                    "identity_assertion requires a non-empty assertion",
                ),
            )
        } else {
            Ok(a)
        },
        None => Err(
            AgentAuthError::new(400, "invalid_request", "identity_assertion requires a non-empty assertion"),
        ),
    }
}

/// The characters of `s` as bytes, when every character is ASCII.
pub open spec fn ascii_bytes(s: Seq<char>) -> Seq<u8> {
    Seq::new(s.len(), |i: int| s[i] as u8)
}

/// A top-level string claim of a JWT, read without verifying its signature: the payload segment
/// (the second `.`-separated piece), base64url-decoded, parsed as JSON, member `key` as a string.
pub open spec fn unverified_claim_spec(jwt: Seq<char>, key: Seq<char>) -> Option<Seq<char>> {
    match nth_piece(jwt, '.', 1) {
        None => None,
        Some(seg) => if forall|i: int| 0 <= i < seg.len() ==> (#[trigger] seg[i] as u32) < 128 {
            match base64url_bytes(ascii_bytes(seg)) {
                None => None,
                Some(bytes) => json_string_member_of(bytes, key),
            }
        } else {
            None
        },
    }
}

/// Read a single top-level string claim out of a JWT without verifying its signature (used only
/// to pick the trusted issuer before real verification runs).
pub fn unverified_claim(jwt: &str, key: &str) -> (r: Option<String>)
    ensures
        match r {
            Some(v) => unverified_claim_spec(jwt@, key@) == Some(v@),
            None => unverified_claim_spec(jwt@, key@) is None,
        },
{
    let seg = match second_piece(jwt, '.') {
        Some(s) => s,
        None => return None,
    };
    let cs = crate::text::chars_of(seg.as_str());
    let mut bytes: Vec<u8> = Vec::new();
    let mut i: usize = 0;
    while i < cs.len()
        invariant
            cs@ == seg@,
            nth_piece(jwt@, '.', 1) == Some(seg@),
            i <= cs@.len(),
            bytes@ == ascii_bytes(cs@.take(i as int)),
            forall|j: int| 0 <= j < i ==> (#[trigger] cs@[j] as u32) < 128,
        decreases cs@.len() - i,
    {
        let c = cs[i];
        if (c as u32) >= 128 {
            // A non-ASCII character is never base64url, so the payload cannot decode.
            proof {
                let sg = nth_piece(jwt@, '.', 1)->0;
                assert(sg == cs@);
                assert(!((sg[i as int] as u32) < 128));
            }
            return None;
        }
        bytes.push(c as u8);
        assert(ascii_bytes(cs@.take(i + 1)) =~= ascii_bytes(cs@.take(i as int)).push(c as u8));
        i = i + 1;
    }
    assert(cs@.take(cs@.len() as int) =~= cs@);
    let decoded = match base64url_decode(bytes.as_slice()) {
        Some(d) => d,
        None => return None,
    };
    json_string_member(decoded.as_slice(), key)
}

/// One issuer this server trusts to vouch for agents.
#[derive(Debug)]
pub struct TrustedIssuer {
    pub issuer: String,
    pub audience: Option<String>,
    pub public_key_pem: String,
    pub algorithm: String,
}

/// The index of the first trusted issuer named `iss`.
pub open spec fn issuer_index(trusted: Seq<TrustedIssuer>, iss: Seq<char>) -> Option<int> {
    if exists|i: int| 0 <= i < trusted.len() && #[trigger] trusted[i].issuer@ == iss {
        Some(choose|i: int| 0 <= i < trusted.len() && trusted[i].issuer@ == iss && forall|j: int|
            0 <= j < i ==> #[trigger] trusted[j].issuer@ != iss)
    } else {
        None
    }
}

/// Select the trusted issuer an assertion names: the first entry whose `issuer` equals `iss`, or
/// 403 `issuer_not_enabled`.
pub fn select_issuer<'a>(trusted: &'a [TrustedIssuer], iss: &str) -> (r: Result<&'a TrustedIssuer, AgentAuthError>)
    ensures
        r is Ok <==> issuer_index(trusted@, iss@) is Some,
        r is Ok ==> *r->Ok_0 == trusted@[issuer_index(trusted@, iss@)->0],
        r is Err ==> agent_fails_with(
            r,
            403,
            "issuer_not_enabled"@,
            "the assertion issuer is not on this server's trust list"@,
        ),
{
    let mut i: usize = 0;
    while i < trusted.len()
        invariant
            i <= trusted@.len(),
            forall|j: int| 0 <= j < i ==> #[trigger] trusted@[j].issuer@ != iss@,
        decreases trusted@.len() - i,
    {
        if str_eq(trusted[i].issuer.as_str(), iss) {
            proof {
                let w = choose|k: int| 0 <= k < trusted@.len() && trusted@[k].issuer@ == iss@ && forall|j: int|
                    0 <= j < k ==> #[trigger] trusted@[j].issuer@ != iss@;
                assert(trusted@[i as int].issuer@ == iss@);
                if w < i {
                } else if w > i {
                    assert(trusted@[i as int].issuer@ != iss@);
                }
            }
            return Ok(&trusted[i]);
        }
        i = i + 1;
    }
    Err(
        AgentAuthError::new(
            403,
            "issuer_not_enabled",
            "the assertion issuer is not on this server's trust list",
        ),
    )
}

/// An assertion whose `iss` cannot be read is malformed: 400 `invalid_grant`.
pub fn require_iss(iss: Option<String>) -> (r: Result<String, AgentAuthError>)
    ensures
        r is Ok <==> iss is Some,
        r is Ok ==> r->Ok_0@ == iss->0@,
        r is Err ==> agent_fails_with(
            r,
            400,
            "invalid_grant"@,
            "assertion is malformed or missing an iss claim"@,
        ),
{
    match iss {
        Some(i) => Ok(i),
        None => Err(AgentAuthError::new(400, "invalid_grant", "assertion is malformed or missing an iss claim")),
    }
}

/// The audience an ID-JAG must name: the issuer's configured audience, else this server's public
/// URL without trailing slashes.
pub fn expected_audience(issuer: &TrustedIssuer, public_url: &str) -> (r: String)
    ensures
        r@ == match issuer.audience {
            Some(a) => a@,
            None => trim_end_char_spec(public_url@, '/'),
        },
{
    match &issuer.audience {
        Some(a) => a.clone(),
        None => trim_end_char(public_url, '/'),
    }
}

/// The signature algorithms a trusted issuer may use.
#[derive(Clone, Copy, Debug, PartialEq, Eq, Structural)]
pub enum JwtAlgorithm {
    ES256,
    ES384,
    RS256,
    RS384,
    RS512,
    EdDSA,
}

/// The algorithm a configured algorithm name selects.
pub open spec fn algorithm_named(name: Seq<char>) -> Option<JwtAlgorithm> {
    if name == "ES256"@ {
        Some(JwtAlgorithm::ES256)
    } else if name == "ES384"@ {
        Some(JwtAlgorithm::ES384)
    } else if name == "RS256"@ {
        Some(JwtAlgorithm::RS256)
    } else if name == "RS384"@ {
        Some(JwtAlgorithm::RS384)
    } else if name == "RS512"@ {
        Some(JwtAlgorithm::RS512)
    } else if name == "EdDSA"@ {
        Some(JwtAlgorithm::EdDSA)
    } else {
        None
    }
}

/// The JOSE `alg` name of an algorithm, as an issuer configures it.
pub open spec fn jwt_algorithm_name(a: JwtAlgorithm) -> Seq<char> {
    match a {
        JwtAlgorithm::ES256 => "ES256"@,
        JwtAlgorithm::ES384 => "ES384"@,
        JwtAlgorithm::RS256 => "RS256"@,
        JwtAlgorithm::RS384 => "RS384"@,
        JwtAlgorithm::RS512 => "RS512"@,
        JwtAlgorithm::EdDSA => "EdDSA"@,
    }
}

/// A configured algorithm name selects the algorithm of that very name, and every supported
/// algorithm's name selects one: a key is never paired with another algorithm than configured.
pub proof fn a_configured_name_selects_its_algorithm(name: Seq<char>)
    ensures
        algorithm_named(name) matches Some(a) ==> jwt_algorithm_name(a) == name,
        (exists|a: JwtAlgorithm| #[trigger] jwt_algorithm_name(a) == name) ==> algorithm_named(name) is Some,
{
    reveal_strlit("ES256");
    reveal_strlit("ES384");
    reveal_strlit("RS256");
    reveal_strlit("RS384");
    reveal_strlit("RS512");
    reveal_strlit("EdDSA");
    if exists|a: JwtAlgorithm| #[trigger] jwt_algorithm_name(a) == name {
        let a = choose|a: JwtAlgorithm| #[trigger] jwt_algorithm_name(a) == name;
        match a {
            JwtAlgorithm::ES256 => {},
            JwtAlgorithm::ES384 => {
                assert("ES384"@ != "ES256"@) by {
                    assert("ES384"@[3] != "ES256"@[3]);
                }
            },
            JwtAlgorithm::RS256 => {
                assert("RS256"@[0] != "ES256"@[0] && "RS256"@[0] != "ES384"@[0]);
            },
            JwtAlgorithm::RS384 => {
                assert("RS384"@[0] != "ES256"@[0] && "RS384"@[0] != "ES384"@[0]);
                assert("RS384"@[3] != "RS256"@[3]);
            },
            JwtAlgorithm::RS512 => {
                assert("RS512"@[0] != "ES256"@[0] && "RS512"@[0] != "ES384"@[0]);
                assert("RS512"@[2] != "RS256"@[2] && "RS512"@[2] != "RS384"@[2]);
            },
            JwtAlgorithm::EdDSA => {
                assert("EdDSA"@[1] != "ES256"@[1] && "EdDSA"@[1] != "ES384"@[1]);
                assert("EdDSA"@[0] != "RS256"@[0] && "EdDSA"@[0] != "RS384"@[0] && "EdDSA"@[0] != "RS512"@[0]);
            },
        }
    }
}

/// The configured algorithm name, if it is one of the supported six.
pub fn algorithm_of(name: &str) -> (r: Option<JwtAlgorithm>)
    ensures
        r == algorithm_named(name@),
        r matches Some(a) ==> jwt_algorithm_name(a) == name@,
        (exists|a: JwtAlgorithm| #[trigger] jwt_algorithm_name(a) == name@) ==> r is Some,
{
    proof {
        a_configured_name_selects_its_algorithm(name@);
    }
    if str_eq(name, "ES256") {
        Some(JwtAlgorithm::ES256)
    } else if str_eq(name, "ES384") {
        Some(JwtAlgorithm::ES384)
    } else if str_eq(name, "RS256") {
        Some(JwtAlgorithm::RS256)
    } else if str_eq(name, "RS384") {
        Some(JwtAlgorithm::RS384)
    } else if str_eq(name, "RS512") {
        Some(JwtAlgorithm::RS512)
    } else if str_eq(name, "EdDSA") {
        Some(JwtAlgorithm::EdDSA)
    } else {
        None
    }
}

/// Whether the PEM `pem` parses as the kind of key algorithm `alg` verifies with: an EC key for
/// `ES256`/`ES384`, an RSA key for `RS256`/`RS384`/`RS512`, an Ed25519 key for `EdDSA`.
pub open spec fn pem_parses_for(alg: JwtAlgorithm, pem: Seq<u8>) -> bool {
    match alg {
        JwtAlgorithm::ES256 | JwtAlgorithm::ES384 => ec_pem_accepts(pem),
        JwtAlgorithm::RS256 | JwtAlgorithm::RS384 | JwtAlgorithm::RS512 => rsa_pem_accepts(pem),
        JwtAlgorithm::EdDSA => ed_pem_accepts(pem),
    }
}

/// The longest public-key PEM a trusted issuer may configure.
pub const MAX_PEM_LEN: usize = 4096;

/// A decoding key and algorithm for a trusted issuer: EC keys for `ES256`/`ES384`, RSA keys for
/// `RS256`/`RS384`/`RS512`, Ed25519 for `EdDSA`. `None` for any other algorithm name, for a PEM
/// longer than [`MAX_PEM_LEN`] bytes, and when the PEM does not parse as that key kind.
pub fn decoding_key(issuer: &TrustedIssuer) -> (r: Option<(jsonwebtoken::DecodingKey, JwtAlgorithm)>)
    ensures
        algorithm_named(issuer.algorithm@) is None ==> r is None,
        vstd::utf8::encode_utf8(issuer.public_key_pem@).len() > MAX_PEM_LEN ==> r is None,
        algorithm_named(issuer.algorithm@) matches Some(alg) ==> (match r {
            Some(found) => found.1 == alg && vstd::utf8::encode_utf8(issuer.public_key_pem@).len()
                <= MAX_PEM_LEN && pem_parses_for(alg, vstd::utf8::encode_utf8(issuer.public_key_pem@)),
            None => vstd::utf8::encode_utf8(issuer.public_key_pem@).len() > MAX_PEM_LEN
                || !pem_parses_for(alg, vstd::utf8::encode_utf8(issuer.public_key_pem@)),
        }),
{
    let pem = issuer.public_key_pem.as_str().as_bytes();
    let alg = match algorithm_of(issuer.algorithm.as_str()) {
        Some(a) => a,
        None => return None,
    };
    if pem.len() > MAX_PEM_LEN {
        return None;
    }
    let key = match alg {
        JwtAlgorithm::ES256 | JwtAlgorithm::ES384 => ec_pem_key(pem),
        JwtAlgorithm::RS256 | JwtAlgorithm::RS384 | JwtAlgorithm::RS512 => rsa_pem_key(pem),
        JwtAlgorithm::EdDSA => ed_pem_key(pem),
    };
    match key {
        Some(k) => Some((k, alg)),
        None => None,
    }
}

/// A stale authentication cannot be replayed: when the assertion carries `auth_time`, at most
/// `max_age` seconds may have passed since (`now.saturating_sub(auth_time)`), else 401
/// `login_required`. `now` is the current Unix time, floored at 0.
pub fn check_auth_time(auth_time: Option<u64>, now: u64, max_age: u64) -> (r: Result<(), AgentAuthError>)
    ensures
        r is Ok <==> (auth_time is None || now - auth_time->0 <= max_age),
        r is Err ==> agent_fails_with(
            r,
            401,
            "login_required"@,
            "the asserted authentication is too old; re-authenticate"@,
        ),
{
    if let Some(t) = auth_time {
        let elapsed = if now >= t { now - t } else { 0 };
        if elapsed > max_age {
            return Err(
                AgentAuthError::new(
                    401,
                    "login_required",
                    "the asserted authentication is too old; re-authenticate",
                ),
            );
        }
    }
    Ok(())
}

/// What an already-registered `(iss, sub)` leads to.
#[derive(Debug)]
pub enum ExistingIdentityStep {
    /// Confirmed: mint a fresh assertion for this DID.
    Mint { did: String },
    /// Registered but not yet confirmed: re-issue the claim challenge with this stored claim token
    /// (and a fresh user code).
    Rechallenge { claim_token: String },
}

/// Decide for an already-registered `(iss, sub)`: a claimed identity mints (it must have a bound
/// DID, else the row is corrupt: server error); an active one re-issues the challenge (it must
/// hold its claim token, else server error); a revoked one is 403.
pub fn existing_identity_step(existing: &AgentIdentityRow) -> (r: Result<ExistingIdentityStep, AgentAuthError>)
    ensures
        existing.status == AgentIdentityStatus::Claimed ==> (match r {
            Ok(ExistingIdentityStep::Mint { did }) => existing.did is Some && did@ == existing.did->0@,
            Ok(_) => false,
            Err(e) => existing.did is None && is_agent_server_error(e),
        }),
        existing.status == AgentIdentityStatus::Active ==> (match r {
            Ok(ExistingIdentityStep::Rechallenge { claim_token }) => existing.claim_token is Some
                && claim_token@ == existing.claim_token->0@,
            Ok(_) => false,
            Err(e) => existing.claim_token is None && is_agent_server_error(e),
        }),
        existing.status == AgentIdentityStatus::Revoked ==> agent_fails_with(
            r,
            403,
            "access_denied"@,
            "this agent identity has been revoked"@,
        ),
{
    match existing.status {
        AgentIdentityStatus::Claimed => match &existing.did {
            Some(d) => Ok(ExistingIdentityStep::Mint { did: d.clone() }),
            None => Err(AgentAuthError::server_error()),
        },
        AgentIdentityStatus::Active => match &existing.claim_token {
            Some(t) => Ok(ExistingIdentityStep::Rechallenge { claim_token: t.clone() }),
            None => Err(AgentAuthError::server_error()),
        },
        AgentIdentityStatus::Revoked => Err(
            AgentAuthError::new(403, "access_denied", "this agent identity has been revoked"),
        ),
    }
}

/// A first-seen `(iss, sub)` binds to the local account of the asserted email: the assertion must
/// carry a non-empty email (400 `invalid_grant`).
pub fn new_identity_email(email: &Option<String>) -> (r: Result<&String, AgentAuthError>)
    ensures
        r is Ok <==> (email is Some && email->0@.len() > 0),
        r is Ok ==> r->Ok_0 == email->0,
        r is Err ==> agent_fails_with(
            r,
            400,
            "invalid_grant"@,
            "assertion has no email claim to bind to a local account"@,
        ),
{
    match email {
        Some(e) => if e.as_str().is_empty() {
            Err(AgentAuthError::new(400, "invalid_grant", "assertion has no email claim to bind to a local account"))
        } else {
            Ok(e)
        },
        None => Err(
            AgentAuthError::new(400, "invalid_grant", "assertion has no email claim to bind to a local account"),
        ),
    }
}

/// ... and that email must match a local account (403 `access_denied`).
pub fn new_identity_account(account_did: Option<String>) -> (r: Result<String, AgentAuthError>)
    ensures
        r is Ok <==> account_did is Some,
        r is Ok ==> r->Ok_0@ == account_did->0@,
        r is Err ==> agent_fails_with(
            r,
            403,
            "access_denied"@,
            "no local account matches the asserted identity"@,
        ),
{
    match account_did {
        Some(d) => Ok(d),
        None => Err(AgentAuthError::new(403, "access_denied", "no local account matches the asserted identity")),
    }
}

/// A fresh registration id: `reg_` and a random UUID's 32 hex digits; `None` when the random
/// source fails.
pub fn new_registration_id() -> (r: Option<String>)
    ensures
        r matches Some(id) ==> {
            &&& id@.len() == 36
            &&& id@.subrange(0, 4) == "reg_"@
            &&& exists|b: Seq<u8>| b.len() == 16 && id@.skip(4) == uuid_hex(uuid_v4_bytes(b))
            &&& forall|i: int| 4 <= i < 36 ==> crate::boundary::is_lower_hex(#[trigger] id@[i])
        },
{
    let bytes = match random_16() {
        Some(b) => b,
        None => return None,
    };
    let mut r = owned("reg_");
    let u = uuid_v4_simple(bytes);
    proof {
        lemma_uuid_hex_shape(bytes@);
    }
    r.append(u.as_str());
    proof {
        reveal_strlit("reg_");
        assert(r@.skip(4) =~= u@);
        assert(r@.subrange(0, 4) =~= "reg_"@);
        assert forall|i: int| 4 <= i < 36 implies crate::boundary::is_lower_hex(#[trigger] r@[i]) by {
            assert(r@[i] == u@[i - 4]);
        }
    }
    Some(r)
}

/// An opaque, high-entropy token: 32 random bytes, base64url without padding (43 characters of
/// the URL-safe alphabet); `None` when the random source fails.
pub fn generate_token() -> (r: Option<String>)
    ensures
        r matches Some(t) ==> {
            &&& t@.len() == 43
            &&& exists|b: Seq<u8>| b.len() == 32 && t@ == #[trigger] base64url_text(b)
            &&& forall|i: int| 0 <= i < t@.len() ==> is_base64url_char(#[trigger] t@[i])
        },
{
    match random_bytes(32) {
        Some(bytes) => {
            let t = base64url_encode(bytes.as_slice());
            proof {
                lemma_base64url_text_shape(bytes@);
            }
            Some(t)
        },
        None => None,
    }
}

/// An opaque, high-entropy claim token: `clm_` and a 43-character base64url token; `None` when
/// the random source fails.
pub fn new_claim_token() -> (r: Option<String>)
    ensures
        r matches Some(c) ==> {
            &&& c@.len() == 47
            &&& c@.subrange(0, 4) == "clm_"@
            &&& exists|b: Seq<u8>| b.len() == 32 && c@.skip(4) == #[trigger] base64url_text(b)
            &&& forall|i: int| 4 <= i < c@.len() ==> is_base64url_char(#[trigger] c@[i])
        },
{
    let t = match generate_token() {
        Some(t) => t,
        None => return None,
    };
    let mut r = owned("clm_");
    r.append(t.as_str());
    proof {
        reveal_strlit("clm_");
        assert(r@.subrange(0, 4) =~= "clm_"@);
        assert(r@.skip(4) =~= t@);
        assert forall|i: int| 4 <= i < r@.len() implies is_base64url_char(#[trigger] r@[i]) by {
            assert(r@[i] == t@[i - 4]);
        }
    }
    Some(r)
}


/// The stages of the `identity_assertion` flow, in order.
#[derive(Clone, Copy, Debug, PartialEq, Eq, Structural)]
pub enum IdentityAssertionStage {
    /// The assertion type, when named, must be the ID-JAG type; the assertion must be non-empty.
    CheckInput,
    /// Read the unverified `iss` and pick the trusted issuer before any signature work.
    SelectIssuer,
    /// Verify the ID-JAG's signature, issuer, audience and lifetime.
    Verify,
    /// A stale authentication needs a fresh login.
    CheckAuthTime,
    /// Re-mint for an existing registration of this `(issuer, subject)`, else register a new one for the account its email names.
    Register,
}

impl Stage for IdentityAssertionStage {
    open spec fn successor(self) -> Option<IdentityAssertionStage> {
        match self {
            IdentityAssertionStage::CheckInput => Some(IdentityAssertionStage::SelectIssuer),
            IdentityAssertionStage::SelectIssuer => Some(IdentityAssertionStage::Verify),
            IdentityAssertionStage::Verify => Some(IdentityAssertionStage::CheckAuthTime),
            IdentityAssertionStage::CheckAuthTime => Some(IdentityAssertionStage::Register),
            IdentityAssertionStage::Register => None,
        }
    }

    fn following(&self) -> (r: Option<IdentityAssertionStage>) {
        match self {
            IdentityAssertionStage::CheckInput => Some(IdentityAssertionStage::SelectIssuer),
            IdentityAssertionStage::SelectIssuer => Some(IdentityAssertionStage::Verify),
            IdentityAssertionStage::Verify => Some(IdentityAssertionStage::CheckAuthTime),
            IdentityAssertionStage::CheckAuthTime => Some(IdentityAssertionStage::Register),
            IdentityAssertionStage::Register => None,
        }
    }
}

/// The stages of the `service_auth` flow, in order.
#[derive(Clone, Copy, Debug, PartialEq, Eq, Structural)]
pub enum ServiceAuthStage {
    /// The flow must be enabled and a `login_hint` given.
    CheckInput,
    /// The hint must name a local account.
    ResolveAccount,
    /// Insert the registration with a fresh claim token (a duplicate is a server error).
    Register,
    /// Open its claim attempt and answer `interaction_required`.
    OpenAttempt,
}

impl Stage for ServiceAuthStage {
    open spec fn successor(self) -> Option<ServiceAuthStage> {
        match self {
            ServiceAuthStage::CheckInput => Some(ServiceAuthStage::ResolveAccount),
            ServiceAuthStage::ResolveAccount => Some(ServiceAuthStage::Register),
            ServiceAuthStage::Register => Some(ServiceAuthStage::OpenAttempt),
            ServiceAuthStage::OpenAttempt => None,
        }
    }

    fn following(&self) -> (r: Option<ServiceAuthStage>) {
        match self {
            ServiceAuthStage::CheckInput => Some(ServiceAuthStage::ResolveAccount),
            ServiceAuthStage::ResolveAccount => Some(ServiceAuthStage::Register),
            ServiceAuthStage::Register => Some(ServiceAuthStage::OpenAttempt),
            ServiceAuthStage::OpenAttempt => None,
        }
    }
}

/// The stages of the `anonymous` flow, in order.
#[derive(Clone, Copy, Debug, PartialEq, Eq, Structural)]
pub enum AnonymousStage {
    RequireEnabled,
    /// The pre-claim assertion, whose subject is the registration id.
    MintAssertion,
    /// Insert the ownerless registration with a fresh claim token.
    Register,
    /// Open its claim attempt and answer with the assertion and the claim challenge.
    OpenAttempt,
}

impl Stage for AnonymousStage {
    open spec fn successor(self) -> Option<AnonymousStage> {
        match self {
            AnonymousStage::RequireEnabled => Some(AnonymousStage::MintAssertion),
            AnonymousStage::MintAssertion => Some(AnonymousStage::Register),
            AnonymousStage::Register => Some(AnonymousStage::OpenAttempt),
            AnonymousStage::OpenAttempt => None,
        }
    }

    fn following(&self) -> (r: Option<AnonymousStage>) {
        match self {
            AnonymousStage::RequireEnabled => Some(AnonymousStage::MintAssertion),
            AnonymousStage::MintAssertion => Some(AnonymousStage::Register),
            AnonymousStage::Register => Some(AnonymousStage::OpenAttempt),
            AnonymousStage::OpenAttempt => None,
        }
    }
}


/// The claims of a verified ID-JAG the registration reads.
#[derive(Debug)]
pub struct IdJagClaims {
    pub sub: String,
    pub email: Option<String>,
    pub auth_time: Option<u64>,
}

/// The key to verify an issuer's assertions with; a configured key or algorithm this server
/// cannot use is a server fault, not the agent's.
pub fn verification_key(issuer: &TrustedIssuer) -> (r: Result<(jsonwebtoken::DecodingKey, JwtAlgorithm), AgentAuthError>)
    ensures
        algorithm_named(issuer.algorithm@) is None ==> (r is Err && is_agent_server_error(r->Err_0)),
        r is Ok <==> (algorithm_named(issuer.algorithm@) matches Some(a) && vstd::utf8::encode_utf8(
            issuer.public_key_pem@,
        ).len() <= MAX_PEM_LEN && pem_parses_for(a, vstd::utf8::encode_utf8(issuer.public_key_pem@))),
        r is Ok ==> algorithm_named(issuer.algorithm@) == Some((r->Ok_0).1),
        r is Err ==> is_agent_server_error(r->Err_0),
{
    match decoding_key(issuer) {
        Some(k) => Ok(k),
        None => Err(AgentAuthError::server_error()),
    }
}

/// A failed signature or claim check: 401 `invalid_grant`, naming what failed.
pub fn verification_failed(detail: &str) -> (e: AgentAuthError)
    ensures
        is_agent_error(e, 401, "invalid_grant"@, "assertion verification failed: "@ + detail@),
{
    let mut d = owned("assertion verification failed: ");
    d.append(detail);
    AgentAuthError::Rejected { status: 401, error: owned("invalid_grant"), description: d }
}

} // verus!
