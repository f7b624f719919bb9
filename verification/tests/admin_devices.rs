use pds::admin_devices::{
    after_pairing_insert, check_registration_shape, check_ttl, default_ttl_minutes, generate_pairing_code,
    new_device, new_device_id, pairing_code_consumed, pairing_code_minted, pairing_code_pending, to_rfc3339_utc,
    RegisterDeviceRequest, RegistrationRefusal,
};
use pds::claim_codes::{InsertOutcome, MintStep};
use pds::error::ErrorCode;

#[test]
fn rfc3339_utc_adds_t_and_z() {
    assert_eq!(to_rfc3339_utc("2026-06-28 03:34:00"), "2026-06-28T03:34:00Z");
}

#[test]
fn rfc3339_utc_replaces_every_space() {
    assert_eq!(to_rfc3339_utc("a b c"), "aTbTcZ");
    assert_eq!(to_rfc3339_utc(""), "Z");
}

#[test]
fn default_pairing_ttl_is_five_minutes() {
    assert_eq!(default_ttl_minutes(), 5);
}

#[test]
fn pairing_ttl_bounds() {
    assert!(check_ttl(1).is_ok());
    assert!(check_ttl(60).is_ok());
    for bad in [0, -5, 61] {
        let e = check_ttl(bad).unwrap_err();
        assert_eq!(e.code, ErrorCode::InvalidRequest);
        assert_eq!(e.message, "expiresInMinutes must be between 1 and 60");
    }
}

#[test]
fn pairing_code_is_22_base64url_chars() {
    let code = generate_pairing_code().unwrap();
    assert_eq!(code.len(), 22);
    assert!(code.chars().all(|c| c.is_ascii_alphanumeric() || c == '-' || c == '_'));
    assert_ne!(generate_pairing_code().unwrap(), code);
}

#[test]
fn pairing_insert_retries_then_gives_up() {
    assert!(matches!(after_pairing_insert(0, InsertOutcome::Stored), MintStep::Done));
    assert!(matches!(after_pairing_insert(0, InsertOutcome::UniqueViolation), MintStep::Retry));
    assert!(matches!(after_pairing_insert(1, InsertOutcome::UniqueViolation), MintStep::Retry));
    match after_pairing_insert(2, InsertOutcome::UniqueViolation) {
        MintStep::Fail(e) => assert_eq!(e.message, "failed to generate a unique pairing code after retries"),
        _ => panic!("expected failure"),
    }
    match after_pairing_insert(0, InsertOutcome::Failed) {
        MintStep::Fail(e) => {
            assert_eq!(e.code, ErrorCode::InternalError);
            assert_eq!(e.message, "failed to store pairing code");
        }
        _ => panic!("expected failure"),
    }
}

#[test]
fn minted_code_expiry_is_rfc3339() {
    let r = pairing_code_minted("abc".to_string(), "2026-01-02 03:04:05");
    assert_eq!(r.pairing_code, "abc");
    assert_eq!(r.expires_at, "2026-01-02T03:04:05Z");
}

fn request(label: &str, platform: &str, key: &str) -> RegisterDeviceRequest {
    RegisterDeviceRequest {
        pairing_code: "code".to_string(),
        label: label.to_string(),
        public_key: key.to_string(),
        platform: platform.to_string(),
        timestamp: 0,
        signature: "sig".to_string(),
    }
}

#[test]
fn registration_shape_checked_in_order() {
    assert_eq!(check_registration_shape(&request("  ", "", "")).unwrap_err().message, "label is required");
    assert_eq!(check_registration_shape(&request("Phone", " ", "")).unwrap_err().message, "platform is required");
    assert_eq!(check_registration_shape(&request("Phone", "ios", "\t")).unwrap_err().message, "publicKey is required");
    assert!(check_registration_shape(&request("Phone", "ios", "did:key:z")).is_ok());
}

#[test]
fn registration_refusals_are_generic_for_code_state() {
    assert!(pairing_code_pending(Ok(Some(true))).is_ok());
    assert!(matches!(pairing_code_pending(Ok(Some(false))), Err(RegistrationRefusal::InvalidCredentials)));
    assert!(matches!(pairing_code_pending(Ok(None)), Err(RegistrationRefusal::InvalidCredentials)));
    match pairing_code_pending(Err(())) {
        Err(RegistrationRefusal::Internal(e)) => assert_eq!(e.message, "pairing lookup failed"),
        _ => panic!("expected internal error"),
    }
    assert!(pairing_code_consumed(Ok(true)).is_ok());
    assert!(matches!(pairing_code_consumed(Ok(false)), Err(RegistrationRefusal::InvalidCredentials)));
    match pairing_code_consumed(Err(())) {
        Err(RegistrationRefusal::Internal(e)) => assert_eq!(e.message, "registration failed"),
        _ => panic!("expected internal error"),
    }
}

#[test]
fn device_row_trims_label_and_platform() {
    let d = new_device("id-1".to_string(), &request("  Operator iPhone ", " ios ", " did:key:z "));
    assert_eq!(d.id, "id-1");
    assert_eq!(d.label, "Operator iPhone");
    assert_eq!(d.platform, "ios");
    assert_eq!(d.public_key, " did:key:z ");
}

#[test]
fn device_id_is_a_hyphenated_uuid() {
    let id = new_device_id().unwrap();
    assert_eq!(&id[14..15], "4");
    assert_eq!(id.len(), 36);
    assert_eq!(id.matches('-').count(), 4);
}
