use pds::account_state::AccountStateChange;
use pds::agent_child::{
    child_of_parent, child_revoked, child_view, deactivation_frame, delete_after_at, delete_after_now, deletion_grace,
    deletion_scheduled, owner_error, parent_is_local, renewable, scheduled_deletion, stored_scopes, DeleteChildStage,
};
use pds::agent_claim::{
    confirm_attempt, confirm_caller, confirm_commit, confirm_response, expires_in, initiate_identity, initiate_response, initiate_token, reset_poll_throttle,
    resume_attempt, ClaimInitiateRequest, ConfirmStage, PollTracker,
};
use pds::agent_event::{
    audit_revocation, check_content_type, map_set_verify_err, provider_revocation_detail, require_revocation_event, revocation_subject,
    revocation_target, set_issuer, set_token, trusted_set_issuer, EventSubject, SetClaims, SetError, TrustedJwtError,
};
use pds::agent_identity::{
    algorithm_of, check_auth_time, check_inserted, existing_identity_step, expected_audience, generate_token,
    new_claim_token, new_identity_account, new_identity_email, new_registration_id, registration_flow,
    require_anonymous_enabled, require_iss, select_issuer, service_auth_login_hint, unverified_claim,
    AgentIdentityRequest, ExistingIdentityStep, JwtAlgorithm, TrustedIssuer,
};
use pds::agent_model::{AgentIdentityRow, AgentIdentityStatus, ClaimAttemptRow, ClaimAttemptStatus, OwnerAuthError, RegistrationType};
use pds::agents::{audit_page, authenticate_owner, owned_identity, revoke_agent_response, AuditQuery};
use pds::error::{AgentAuthError, ApiError, ErrorCode};
use pds::flow::{after_stage, Next};

fn identity(status: AgentIdentityStatus) -> AgentIdentityRow {
    AgentIdentityRow {
        id: "reg_1".to_string(),
        did: Some("did:plc:child".to_string()),
        parent_did: Some("did:plc:parent".to_string()),
        registration_type: RegistrationType::Child,
        issuer: None,
        subject: None,
        email: None,
        status,
        claim_token: Some("clm_x".to_string()),
        claim_token_expires_at: Some("2026-01-01 00:00:00".to_string()),
        scopes: r#"["atproto","repo:*"]"#.to_string(),
        created_at: "2025-12-31 00:00:00".to_string(),
    }
}

fn rejected(e: AgentAuthError) -> (u16, String, String) {
    match e {
        AgentAuthError::Rejected { status, error, description } => (status, error, description),
        AgentAuthError::InteractionRequired { .. } => panic!("expected a rejection"),
    }
}

fn set_error(e: SetError) -> (u16, String, String) {
    (e.status, e.err.to_string(), e.description)
}

#[test]
fn registration_flows() {
    assert!(matches!(registration_flow(Some("anonymous")), Ok(RegistrationType::Anonymous)));
    assert!(matches!(registration_flow(Some("service_auth")), Ok(RegistrationType::ServiceAuth)));
    assert!(matches!(registration_flow(Some("identity_assertion")), Ok(RegistrationType::IdentityAssertion)));
    assert_eq!(
        rejected(registration_flow(None).unwrap_err()),
        (400, "invalid_request".to_string(), "missing required field: type".to_string())
    );
    assert_eq!(
        rejected(registration_flow(Some("magic")).unwrap_err()).2,
        "unsupported registration type: \"magic\""
    );
    assert_eq!(rejected(require_anonymous_enabled(false).unwrap_err()).1, "anonymous_not_enabled");
}

#[test]
fn service_auth_inputs() {
    let req = AgentIdentityRequest { typ: None, assertion_type: None, assertion: None, login_hint: Some(String::new()) };
    assert_eq!(rejected(service_auth_login_hint(true, &req).unwrap_err()).2, "service_auth requires a non-empty login_hint");
    assert_eq!(rejected(service_auth_login_hint(false, &req).unwrap_err()).1, "service_auth_not_enabled");
    assert_eq!(rejected(pds::agent_identity::service_auth_account(None).unwrap_err()).1, "access_denied");
    assert_eq!(rejected(check_inserted(true).unwrap_err()), (500, "server_error".to_string(), "internal server error".to_string()));
}

#[test]
fn unverified_claims_read_the_payload() {
    // Payload {"iss":"https://idp.example","n":1}, base64url without padding.
    let jwt = "eyJhbGciOiJub25lIn0.eyJpc3MiOiJodHRwczovL2lkcC5leGFtcGxlIiwibiI6MX0.sig";
    assert_eq!(unverified_claim(jwt, "iss").as_deref(), Some("https://idp.example"));
    assert_eq!(unverified_claim(jwt, "n"), None);
    assert_eq!(unverified_claim("no-dots", "iss"), None);
    assert_eq!(rejected(require_iss(None).unwrap_err()).1, "invalid_grant");
}

fn issuer(name: &str, audience: Option<&str>, alg: &str) -> TrustedIssuer {
    TrustedIssuer {
        issuer: name.to_string(),
        audience: audience.map(str::to_string),
        public_key_pem: "not a pem".to_string(),
        algorithm: alg.to_string(),
    }
}

#[test]
fn trusted_issuers() {
    let list = vec![issuer("a", None, "ES256"), issuer("b", Some("aud-b"), "RS256"), issuer("b", None, "EdDSA")];
    assert_eq!(select_issuer(&list, "b").unwrap().algorithm, "RS256");
    assert_eq!(rejected(select_issuer(&list, "c").unwrap_err()).1, "issuer_not_enabled");
    assert_eq!(expected_audience(&list[0], "https://pds.example//"), "https://pds.example");
    assert_eq!(expected_audience(&list[1], "https://pds.example"), "aud-b");
    assert_eq!(algorithm_of("EdDSA"), Some(JwtAlgorithm::EdDSA));
    assert_eq!(algorithm_of("HS256"), None);
    assert!(pds::agent_identity::decoding_key(&list[0]).is_none());
}

const EC_PUBLIC_PEM: &str = "-----BEGIN PUBLIC KEY-----
MFkwEwYHKoZIzj0CAQYIKoZIzj0DAQcDQgAEw7JAoU/gJbZJvV+zCOvU9yFJq0FN
C/edCMRM78P8eQTBCDUTK1ywSYaszvQZvneiW6gNtWEJndSreEcyyUdVvg==
-----END PUBLIC KEY-----
";

#[test]
fn decoding_key_parses_by_algorithm_and_refuses_oversized_pems() {
    let mut ec = issuer("a", None, "ES256");
    ec.public_key_pem = EC_PUBLIC_PEM.to_string();
    let (_, alg) = pds::agent_identity::decoding_key(&ec).unwrap();
    assert_eq!(alg, JwtAlgorithm::ES256);
    ec.algorithm = "RS256".to_string();
    assert!(pds::agent_identity::decoding_key(&ec).is_none());
    let mut long = issuer("a", None, "ES256");
    long.public_key_pem = format!("{}{}", " ".repeat(5000), EC_PUBLIC_PEM);
    assert!(pds::agent_identity::decoding_key(&long).is_none());
}

#[test]
fn stale_authentication_is_refused() {
    assert!(check_auth_time(None, 100, 10).is_ok());
    assert!(check_auth_time(Some(95), 100, 10).is_ok());
    assert!(check_auth_time(Some(200), 100, 10).is_ok());
    assert_eq!(rejected(check_auth_time(Some(80), 100, 10).unwrap_err()).0, 401);
}

#[test]
fn existing_identities() {
    assert!(matches!(existing_identity_step(&identity(AgentIdentityStatus::Claimed)), Ok(ExistingIdentityStep::Mint { ref did }) if did == "did:plc:child"));
    assert!(matches!(existing_identity_step(&identity(AgentIdentityStatus::Active)), Ok(ExistingIdentityStep::Rechallenge { ref claim_token }) if claim_token == "clm_x"));
    assert_eq!(rejected(existing_identity_step(&identity(AgentIdentityStatus::Revoked)).unwrap_err()).0, 403);
    assert_eq!(rejected(new_identity_email(&None).unwrap_err()).1, "invalid_grant");
    assert_eq!(rejected(new_identity_account(None).unwrap_err()).1, "access_denied");
}

#[test]
fn fresh_identifiers() {
    let reg = new_registration_id().unwrap();
    assert!(reg[4..].chars().all(|c| c.is_ascii_digit() || ('a'..='f').contains(&c)));
    assert_eq!(&reg[16..17], "4");
    assert_eq!(reg.len(), 36);
    assert!(reg.starts_with("reg_"));
    let token = generate_token().unwrap();
    assert_eq!(token.len(), 43);
    let clm = new_claim_token().unwrap();
    assert!(clm[4..].bytes().all(|b| b.is_ascii_alphanumeric() || b == b'-' || b == b'_'));
    assert_eq!(clm.len(), 47);
    assert!(clm.starts_with("clm_"));
    assert_ne!(new_claim_token().unwrap(), clm);
}

#[test]
fn claim_initiation() {
    let req = ClaimInitiateRequest { claim_token: Some(String::new()), email: None };
    assert_eq!(rejected(initiate_token(&req).unwrap_err()).2, "missing required field: claim_token");
    assert!(initiate_identity(Some(identity(AgentIdentityStatus::Active)), "2025-12-31 23:59:59").is_ok());
    assert_eq!(
        rejected(initiate_identity(Some(identity(AgentIdentityStatus::Active)), "2026-01-01 00:00:00").unwrap_err()).1,
        "claim_expired"
    );
    assert_eq!(rejected(initiate_identity(None, "x").unwrap_err()).1, "invalid_claim_token");
    assert_eq!(rejected(initiate_identity(Some(identity(AgentIdentityStatus::Claimed)), "x").unwrap_err()).1, "claimed_or_in_flight");
    let attempt = ClaimAttemptRow {
        id: "a".to_string(),
        identity_id: "reg_1".to_string(),
        user_code: "ABC123".to_string(),
        user_code_expires_at: "t".to_string(),
        status: ClaimAttemptStatus::Pending,
        past_expiry: false,
    };
    assert!(resume_attempt(Some(attempt)).is_some());
    assert_eq!(expires_in(100, 40), 60);
    assert_eq!(expires_in(40, 100), 0);
}

#[test]
fn claim_confirmation() {
    assert_eq!(rejected(confirm_caller(Err(OwnerAuthError::AgentDerived)).unwrap_err()).0, 403);
    assert_eq!(rejected(confirm_caller(Err(OwnerAuthError::NotFullAccess)).unwrap_err()).0, 401);
    assert_eq!(rejected(confirm_commit(false, true).unwrap_err()).2, "this claim attempt is no longer pending");
    assert_eq!(rejected(confirm_commit(true, false).unwrap_err()).2, "this registration is no longer active");
    let r = confirm_response("reg_1".to_string(), "did:plc:me".to_string());
    assert_eq!(r.status, "claimed");
    let mut tracker = PollTracker { marks: vec![("clm_a".to_string(), 5)] };
    reset_poll_throttle(&mut tracker);
    assert!(tracker.marks.is_empty());
    match after_stage(&ConfirmStage::CompleteAttempt, Ok::<(), ()>(())) {
        Next::Run(s) => assert_eq!(s, ConfirmStage::ClaimIdentity),
        _ => panic!("expected the next stage"),
    }
}

#[test]
fn owner_surface() {
    let e = authenticate_owner(Err(OwnerAuthError::AgentDerived)).unwrap_err();
    assert_eq!(e.code, ErrorCode::InsufficientScope);
    assert_eq!(owned_identity(Some(identity(AgentIdentityStatus::Claimed)), "did:plc:parent").unwrap().id, "reg_1");
    assert_eq!(owned_identity(Some(identity(AgentIdentityStatus::Claimed)), "did:plc:other").unwrap_err().message, "unknown agent registration");
    assert_eq!(revoke_agent_response("reg_1".to_string()).status, "revoked");
    let page = audit_page(&AuditQuery { limit: Some(500), cursor: Some("17".to_string()) }).unwrap();
    assert_eq!((page.limit, page.before_seq), (100, Some(17)));
    assert_eq!(audit_page(&AuditQuery { limit: None, cursor: Some("x".to_string()) }).unwrap_err().message, "malformed cursor");
}

#[test]
fn child_agents() {
    let inner = ApiError::new(ErrorCode::AuthenticationRequired, "no token");
    assert_eq!(owner_error(OwnerAuthError::Unauthenticated(inner)).message, "no token");
    assert_eq!(owner_error(OwnerAuthError::NotFullAccess).message, "full account-owner authority is required");
    assert_eq!(parent_is_local(false).unwrap_err().message, "parent account is not local");
    assert_eq!(child_of_parent(None).unwrap_err().message, "child agent not found");
    assert!(renewable(AgentIdentityStatus::Claimed).is_ok());
    assert_eq!(renewable(AgentIdentityStatus::Revoked).unwrap_err().message, "child agent is not active");
    assert_eq!(stored_scopes(r#"["a","b"]"#), vec!["a".to_string(), "b".to_string()]);
    assert!(stored_scopes("not json").is_empty());
    let scheduled = vec![
        ("did:plc:child".to_string(), "first".to_string()),
        ("did:plc:other".to_string(), "x".to_string()),
        ("did:plc:child".to_string(), "last".to_string()),
    ];
    assert_eq!(scheduled_deletion(&scheduled, "did:plc:child").as_deref(), Some("last"));
    assert_eq!(scheduled_deletion(&scheduled, "did:plc:none"), None);
    let v = child_view(&identity(AgentIdentityStatus::Revoked), None, &scheduled);
    assert_eq!(v.status, "revoked");
    assert_eq!(v.handle, "");
    assert_eq!(v.delete_after.as_deref(), Some("last"));
    assert_eq!(v.scopes, vec!["atproto".to_string(), "repo:*".to_string()]);
    assert_eq!(child_revoked("did:plc:child".to_string()).status, "revoked");
}

#[test]
fn child_deletion() {
    assert_eq!(deletion_grace(u64::MAX), i64::MAX);
    assert_eq!(deletion_grace(86_400), 86_400);
    // 1767225600 is 2026-01-01T00:00:00Z.
    assert_eq!(delete_after_at(1767225600, 86_400).as_deref(), Some("2026-01-02T00:00:00Z"));
    assert_eq!(delete_after_at(1767225600, i64::MAX), None);
    assert!(delete_after_now(60).unwrap().ends_with('Z'));
    // 8210266876799 is the last second of chrono's latest date.
    assert_eq!(delete_after_at(8210266876799, 0).as_deref(), Some("+262142-12-31T23:59:59Z"));
    assert_eq!(delete_after_at(8210266876799, 1), None);
    assert_eq!(deactivation_frame(AccountStateChange::Changed).unwrap(), true);
    assert_eq!(deactivation_frame(AccountStateChange::Unchanged).unwrap(), false);
    assert_eq!(deactivation_frame(AccountStateChange::NotFound).unwrap_err().code, ErrorCode::NotFound);
    let r = deletion_scheduled("did:plc:child".to_string(), "t".to_string());
    assert_eq!(r.status, "deletion_scheduled");
    match after_stage(&DeleteChildStage::Revoke, Ok::<(), ()>(())) {
        Next::Run(s) => assert_eq!(s, DeleteChildStage::Deactivate),
        _ => panic!("expected the next stage"),
    }
}

#[test]
fn security_event_delivery() {
    assert!(check_content_type(None).is_ok());
    assert!(check_content_type(Some(Some("Application/SecEvent+JWT; charset=utf-8"))).is_ok());
    assert_eq!(
        set_error(check_content_type(Some(Some("application/json"))).unwrap_err()).2,
        "content type must be application/secevent+jwt"
    );
    assert!(check_content_type(Some(None)).is_err());
    assert_eq!(set_token(b"  abc.def.ghi \n").unwrap(), "abc.def.ghi");
    assert_eq!(set_error(set_token(b"   ").unwrap_err()).2, "request body must be a Security Event Token");
    assert_eq!(set_error(set_token(&[0xff, 0xfe]).unwrap_err()).1, "invalid_request");
    assert_eq!(set_error(set_issuer("garbage").unwrap_err()).2, "SET is malformed or missing an iss claim");
    let list = vec![issuer("https://idp.example", None, "ES256")];
    assert!(trusted_set_issuer(&list, "https://idp.example").is_ok());
    assert_eq!(set_error(trusted_set_issuer(&list, "https://evil.example").unwrap_err()).1, "invalid_issuer");
    assert_eq!(set_error(map_set_verify_err(TrustedJwtError::ServerError)).0, 500);
    assert_eq!(set_error(map_set_verify_err(TrustedJwtError::UnknownKey)).1, "authentication_failed");
    assert_eq!(provider_revocation_detail(), r#"{"source":"provider_set"}"#);
    assert!(matches!(revocation_target::<u8>(Ok(None)), Ok(None)));
    assert_eq!(set_error(revocation_target::<u8>(Err(())).unwrap_err()).0, 500);
}

#[test]
fn revocation_subjects() {
    let revoked = "https://schemas.example/revoked";
    let top = SetClaims { sub: Some("sub-top".to_string()), events: vec![(revoked.to_string(), None)] };
    assert_eq!(revocation_subject(&top, revoked).unwrap(), "sub-top");
    let nested = SetClaims {
        sub: Some(String::new()),
        events: vec![(revoked.to_string(), Some(EventSubject::Object(Some("sub-payload".to_string()))))],
    };
    assert_eq!(revocation_subject(&nested, revoked).unwrap(), "sub-payload");
    let text = SetClaims { sub: None, events: vec![(revoked.to_string(), Some(EventSubject::Text("s".to_string())))] };
    assert_eq!(revocation_subject(&text, revoked).unwrap(), "s");
    let none = SetClaims { sub: None, events: vec![("https://schemas.example/other".to_string(), None)] };
    assert_eq!(set_error(require_revocation_event(&none, revoked).unwrap_err()).2, "the SET does not carry a supported event type");
    assert_eq!(set_error(revocation_subject(&none, revoked).unwrap_err()).2, "the SET names no subject to revoke");
}

#[test]
fn initiate_answer_carries_the_attempt() {
    let r = initiate_response(
        "reg_1".to_string(),
        "att_1".to_string(),
        "2026-01-01T00:10:00.000Z".to_string(),
        "ABC123".to_string(),
        600,
        "https://pds.example/claim".to_string(),
        5,
    );
    assert_eq!(r.registration_id, "reg_1");
    assert_eq!(r.claim_attempt_id, "att_1");
    assert_eq!(r.status, "initiated");
    assert_eq!(r.expires_at, "2026-01-01T00:10:00.000Z");
    assert_eq!(r.claim_attempt.user_code, "ABC123");
    assert_eq!(r.claim_attempt.expires_in, 600);
    assert_eq!(r.claim_attempt.verification_uri, "https://pds.example/claim");
    assert_eq!(r.claim_attempt.interval, 5);
}

#[test]
fn a_consumed_user_code_is_refused_a_second_time() {
    let consumed = ClaimAttemptRow {
        id: "a".to_string(),
        identity_id: "reg_1".to_string(),
        user_code: "ABC123".to_string(),
        user_code_expires_at: "t".to_string(),
        status: ClaimAttemptStatus::Completed,
        past_expiry: false,
    };
    let (status, error, description) = rejected(confirm_attempt(Some(consumed)).unwrap_err());
    assert_eq!((status, error.as_str(), description.as_str()), (400, "claimed_or_in_flight", "this user code has already been used"));
    assert_eq!(rejected(confirm_attempt(None).unwrap_err()).1, "invalid_user_code");
}

#[test]
fn a_repeated_revocation_is_not_audited_again() {
    assert!(audit_revocation(true));
    assert!(!audit_revocation(false));
    assert!(matches!(revocation_target::<u8>(Ok(None)), Ok(None)));
}
