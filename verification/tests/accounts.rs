use pds::account_state::AccountStateChange;
use pds::account_storage::{storage_error, storage_response};
use pds::account_usage::{account_found, last_active, records_count, usage_error, usage_response};
use pds::activate_account::{activation_error, activation_frames, check_empty_body, require_access_scope, sync_anchor, ActivationFrames};
use pds::confirm_email::{email_confirmed, email_matches, require_full_access, session_account_email, token_consumed, unhashable_token};
use pds::create_account_xrpc::{
    account_insert_error, account_mode, account_response, atproto_key_present, bearer_token, clock_secs, did_not_promoted,
    email_free,
    genesis_rotation_key, handle_free, handle_insert_error, invite_code_to_spend, invite_precheck, invite_redeemed,
    master_key_configured, migration_password, migration_token, published_signing_key, require_email, require_password,
    reserved_signing_key, session_audience, unix_now, AccountMode, MigrationStage, NewAccountStage, Promotion, PromotionStep,
};
use pds::error::ErrorCode;
use pds::flow::{after_stage, Next};

#[test]
fn usage_figures() {
    assert_eq!(usage_error().message, "failed to load account usage");
    assert_eq!(account_found::<u8>(None).unwrap_err().message, "account not found");
    assert_eq!(last_active(None, "created".to_string()), "created");
    assert_eq!(last_active(Some("later".to_string()), "created".to_string()), "later");
    assert_eq!(records_count(None), 0);
    assert_eq!(records_count(Some(12)), 12);
    let u = usage_response(3, 2, 1, 100, 50, "t".to_string());
    assert_eq!(u.storage_bytes, 150);
}

#[test]
fn storage_figures() {
    assert_eq!(storage_error().message, "failed to load account storage");
    let s = storage_response(2, 300, u64::MAX, Some(("bafy".to_string(), 200)));
    assert_eq!(s.quota_bytes, i64::MAX);
    let l = s.largest_blob.unwrap();
    assert_eq!((l.cid.as_str(), l.size), ("bafy", 200));
    assert!(storage_response(0, 0, 10, None).largest_blob.is_none());
}

#[test]
fn activation_rules() {
    assert_eq!(require_access_scope(false).unwrap_err().message, "access token required");
    assert!(check_empty_body(b"").is_ok());
    assert!(check_empty_body(b" \t\r\n\x0c").is_ok());
    // A vertical tab is not ASCII white space by `u8::is_ascii_whitespace`.
    assert_eq!(check_empty_body(b"\x0b").unwrap_err().message, "activateAccount does not accept a request body");
    assert_eq!(check_empty_body(b"{}").unwrap_err().code, ErrorCode::InvalidRequest);
    assert_eq!(activation_frames(AccountStateChange::NotFound, true).unwrap_err().message, "account not found");
    assert_eq!(activation_frames(AccountStateChange::Unchanged, true).unwrap(), ActivationFrames { account: false, sync: false });
    assert_eq!(activation_frames(AccountStateChange::Changed, false).unwrap(), ActivationFrames { account: true, sync: false });
    assert_eq!(activation_frames(AccountStateChange::Changed, true).unwrap(), ActivationFrames { account: true, sync: true });
    assert!(sync_anchor(Some("h".to_string()), None).is_none());
    assert_eq!(sync_anchor(Some("h".to_string()), Some("r".to_string())), Some(("h".to_string(), "r".to_string())));
    assert_eq!(activation_error().message, "failed to activate account");
}

#[test]
fn email_confirmation_rules() {
    assert_eq!(require_full_access(false).unwrap_err().message, "full access token required");
    assert_eq!(session_account_email(None).unwrap_err().message, "account not found");
    assert!(email_matches("Alice@Example.com", "alice@example.COM").is_ok());
    assert_eq!(email_matches("a@example.com", "b@example.com").unwrap_err().message, "email does not match the account email");
    assert_eq!(unhashable_token().message, "invalid confirmation token");
    let e = token_consumed(false).unwrap_err();
    assert_eq!((e.code, e.message.as_str()), (ErrorCode::ExpiredToken, "invalid or expired confirmation token"));
    assert_eq!(email_confirmed(false).unwrap_err().message, "account not found or not active");
}

#[test]
fn create_account_mode_selection() {
    assert!(matches!(account_mode(None), AccountMode::New));
    assert!(matches!(account_mode(Some("   ")), AccountMode::New));
    assert!(matches!(account_mode(Some(" did:plc:abc ")), AccountMode::Migration(ref d) if d == "did:plc:abc"));
}

#[test]
fn create_account_inputs() {
    assert_eq!(require_email(Some("  a@b.c ")).unwrap(), "a@b.c");
    assert_eq!(require_email(Some("  ")).unwrap_err().message, "email is required");
    assert_eq!(require_password(Some("")).unwrap_err().message, "password must not be empty");
    assert_eq!(require_password(Some(" pw ")).unwrap(), " pw ");
    assert_eq!(migration_password(Some("")), None);
    assert_eq!(migration_password(Some("x")).as_deref(), Some("x"));
    assert_eq!(
        genesis_rotation_key(None).unwrap_err().message,
        "plcOp is required: this server does not create server-custodied identities; supply a self-signed did:plc genesis operation (or migrate an existing DID)"
    );
    assert_eq!(
        genesis_rotation_key(Some(r#"{"rotationKeys":["did:key:zA","did:key:zB"]}"#)).unwrap(),
        "did:key:zA"
    );
    assert_eq!(
        genesis_rotation_key(Some(r#"{"rotationKeys":[7]}"#)).unwrap_err().message,
        "plcOp.rotationKeys[0] is missing or not a string"
    );
    assert!(genesis_rotation_key(Some(r#"{"rotationKeys":[]}"#)).is_err());
    assert_eq!(genesis_rotation_key(Some(r#"{"rotationKeys":["did:key:zA",7]}"#)).unwrap(), "did:key:zA");
    assert_eq!(published_signing_key(None).unwrap_err().message, "op verificationMethods.atproto is missing");
}

#[test]
fn create_account_lookups() {
    assert_eq!(reserved_signing_key::<u8>(false, Err(())).unwrap_err().message, "failed to load signing key");
    assert_eq!(
        reserved_signing_key::<u8>(false, Ok(None)).unwrap_err().message,
        "op verificationMethods.atproto does not match a reserved signing key; call reserveSigningKey first"
    );
    assert_eq!(
        reserved_signing_key::<u8>(true, Ok(None)).unwrap_err().message,
        "no reserved signing key for this DID; call reserveSigningKey first"
    );
    assert_eq!(reserved_signing_key(true, Ok(Some(4u8))).unwrap(), 4);
    assert_eq!(email_free(Ok(true)).unwrap_err().code, ErrorCode::AccountExists);
    assert_eq!(handle_free(Ok(true)).unwrap_err().code, ErrorCode::HandleTaken);
    assert_eq!(handle_free(Err(())).unwrap_err().message, "failed to create account");
    assert_eq!(did_not_promoted(true).unwrap_err().code, ErrorCode::DidAlreadyExists);
    assert_eq!(master_key_configured(false).unwrap_err().code, ErrorCode::ServiceUnavailable);
    assert_eq!(account_insert_error(true).message, "account already exists");
    assert_eq!(account_insert_error(false).message, "failed to create account");
    assert_eq!(handle_insert_error(true).code, ErrorCode::HandleTaken);
    assert_eq!(handle_insert_error(false).message, "failed to bind handle");
}

#[test]
fn invite_codes() {
    assert_eq!(invite_code_to_spend(false, None).unwrap(), None);
    assert_eq!(invite_code_to_spend(true, Some(" ABC123 ")).unwrap().as_deref(), Some("ABC123"));
    assert_eq!(invite_code_to_spend(true, Some("  ")).unwrap_err().message, "an invite code is required");
    assert_eq!(invite_precheck(false).unwrap_err().message, "invalid or expired invite code");
    assert_eq!(invite_redeemed(Ok(0)).unwrap_err().message, "invalid or expired invite code");
    assert!(invite_redeemed(Ok(1)).is_ok());
    assert_eq!(invite_redeemed(Err(())).unwrap_err().message, "failed to redeem invite code");
}

#[test]
fn bearer_tokens() {
    assert_eq!(bearer_token(Some("Bearer  abc ")).as_deref(), Some("abc"));
    assert_eq!(bearer_token(Some("bearer abc")), None);
    assert_eq!(bearer_token(Some("Bearer    ")), None);
    assert_eq!(bearer_token(None), None);
    assert_eq!(
        migration_token(None).unwrap_err().message,
        "migration requires a service-auth token from the current PDS"
    );
    assert_eq!(atproto_key_present(None).unwrap_err().message, "the DID document has no #atproto verification method");
}

#[test]
fn clock_and_audience() {
    assert!(unix_now().unwrap() > 1_600_000_000);
    assert_eq!(clock_secs(Some(7)).unwrap(), 7);
    let e = clock_secs(None).unwrap_err();
    assert_eq!(e.code, ErrorCode::InternalError);
    assert_eq!(e.message, "system clock error");
    assert_eq!(session_audience(Some("did:web:pds"), "https://pds"), "did:web:pds");
    assert_eq!(session_audience(None, "https://pds"), "https://pds");
    let r = account_response("a".to_string(), "r".to_string(), "alice.test", "did:plc:x", "{}".to_string());
    assert_eq!(r.did_doc.as_deref(), Some("{}"));
    assert_eq!(r.handle, "alice.test");
}

#[test]
fn create_account_stage_orders() {
    match after_stage(&NewAccountStage::CheckDidFree, Ok::<(), ()>(())) {
        Next::Run(s) => assert_eq!(s, NewAccountStage::SubmitPlcOp),
        _ => panic!("expected the next stage"),
    }
    assert!(matches!(after_stage(&NewAccountStage::Promote, Ok::<(), ()>(())), Next::Done));
    let keys = Promotion { migration: true, step: PromotionStep::StoreSigningKey };
    match after_stage(&keys, Ok::<(), ()>(())) {
        Next::Run(p) => assert_eq!(p.step, PromotionStep::IssueSession),
        _ => panic!("expected the next stage"),
    }
    let keys_new = Promotion { migration: false, step: PromotionStep::StoreSigningKey };
    match after_stage(&keys_new, Ok::<(), ()>(())) {
        Next::Run(p) => assert_eq!(p.step, PromotionStep::StoreBlocks),
        _ => panic!("expected the next stage"),
    }
    match after_stage(&MigrationStage::ResolveDid, Err::<(), &str>("no document")) {
        Next::Stop(e) => assert_eq!(e, "no document"),
        _ => panic!("expected a stop"),
    }
}
