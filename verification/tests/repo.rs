use ipld_core::cid::multihash::Multihash;
use ipld_core::cid::Cid;
use ipld_core::ipld::Ipld;
use std::collections::BTreeMap;
use pds::apply_writes::{
    check_advanced, check_repo_state, check_request, commit_ops, engine_op, OpAction, map_engine_error, record_key, split_write, write_results,
    ApplyWritesStage, Kind, RecordErrorKind, RepoWriteState, WriteItem, WriteOp, WriteOutcome, WriteResult,
};
use pds::check_account_status::{
    account_found, account_status_response, collect_blob_cids, is_record_key, read_record, status_read_failed, RecordRead,
    RecordTally, RecordValue, StatusRead,
};
use pds::claim_codes::{
    after_insert, default_expires_in_hours, default_list_limit, derive_status, expiry_offset, generate_unique_codes,
    inventory_page, revoke_response, validate_list_limit, validate_mint_request, ClaimCodeRow, ClaimCodesRequest,
    InsertOutcome, MintStep, RevokeClaimCodeOutcome,
};
use pds::error::{ApiError, ErrorCode};
use pds::flow::{after_stage, Next};

#[test]
fn apply_writes_request_checks() {
    assert_eq!(check_request(false, Ok("did:a".to_string()), "did:a", 1).unwrap_err().message, "invalid DID format");
    let e = ApiError::new(ErrorCode::ExpiredToken, "token expired");
    assert_eq!(check_request(true, Err(e), "did:a", 1).unwrap_err().message, "token expired");
    assert_eq!(
        check_request(true, Ok("did:b".to_string()), "did:a", 1).unwrap_err().message,
        "authenticated account does not own this repository"
    );
    assert_eq!(check_request(true, Ok("did:a".to_string()), "did:a", 0).unwrap_err().message, "writes array must not be empty");
    assert!(check_request(true, Ok("did:a".to_string()), "did:a", 2).is_ok());
}

#[test]
fn writes_split_into_keys_and_values() {
    let w = split_write(WriteItem::Create { collection: "app.bsky.feed.post".to_string(), rkey: Some(String::new()), value: 1u8 });
    assert_eq!(w.kind, Kind::Create);
    assert!(w.rkey.is_none());
    let u = split_write(WriteItem::Update { collection: "c".to_string(), rkey: "k".to_string(), value: 2u8 });
    assert_eq!((u.rkey.as_deref(), u.value), (Some("k"), Some(2)));
    let d = split_write::<u8>(WriteItem::Delete { collection: "c".to_string(), rkey: "k".to_string() });
    assert!(d.value.is_none());
    assert_eq!(record_key("app.bsky.feed.post", "3k2a"), "app.bsky.feed.post/3k2a");
    assert!(matches!(engine_op(Kind::Create, "c/k".to_string(), Some(5u8)), Ok(WriteOp::Create { ref key, value: 5 }) if key == "c/k"));
    assert!(matches!(engine_op::<u8>(Kind::Delete, "c/k".to_string(), None), Ok(WriteOp::Delete { .. })));
    assert_eq!(engine_op::<u8>(Kind::Update, "c/k".to_string(), None).unwrap_err().message, "failed to apply writes");
}

#[test]
fn repo_state_preconditions() {
    assert_eq!(check_repo_state(None, None).unwrap_err().code, ErrorCode::NotFound);
    let inactive = RepoWriteState { active: false, repo_root_cid: None };
    assert_eq!(check_repo_state(Some(inactive), None).unwrap_err().message, "account is deactivated");
    let no_repo = RepoWriteState { active: true, repo_root_cid: None };
    assert_eq!(check_repo_state(Some(no_repo), None).unwrap_err().message, "account not found");
    let ok = || RepoWriteState { active: true, repo_root_cid: Some("bafyroot".to_string()) };
    assert_eq!(check_repo_state(Some(ok()), Some("bafyroot")).unwrap(), "bafyroot");
    assert_eq!(check_repo_state(Some(ok()), Some("bafyold")).unwrap_err().code, ErrorCode::Conflict);
    assert_eq!(map_engine_error(RecordErrorKind::AlreadyExists).message, "record already exists");
    assert_eq!(map_engine_error(RecordErrorKind::InvalidPath).code, ErrorCode::InvalidClaim);
    assert_eq!(check_advanced(false).unwrap_err().code, ErrorCode::Conflict);
}

#[test]
fn write_results_follow_the_batch() {
    let outcomes = vec![
        WriteOutcome { key: "c/a".to_string(), cid: Some("bafya".to_string()) },
        WriteOutcome { key: "c/b".to_string(), cid: None },
    ];
    let results = write_results("did:plc:x", &[Kind::Create, Kind::Delete], &outcomes);
    assert_eq!(results.len(), 2);
    match &results[0] {
        WriteResult::Create { uri, cid, validation_status } => {
            assert_eq!(uri, "at://did:plc:x/c/a");
            assert_eq!(cid, "bafya");
            assert_eq!(*validation_status, "unknown");
        }
        _ => panic!("expected a create result"),
    }
    assert!(matches!(results[1], WriteResult::Delete));
    match after_stage(&ApplyWritesStage::ApplyBatch, Ok::<(), ()>(())) {
        Next::Run(s) => assert_eq!(s, ApplyWritesStage::AdvanceRoot),
        _ => panic!("expected the next stage"),
    }
}

fn text(s: &str) -> RecordValue {
    RecordValue::Text(s.to_string())
}

fn blob(cid: &str) -> RecordValue {
    RecordValue::Object(vec![
        ("$type".to_string(), text("blob")),
        ("mimeType".to_string(), text("image/png")),
        ("ref".to_string(), RecordValue::Link(cid.to_string())),
    ])
}

#[test]
fn blob_references_are_collected_once() {
    let raw_ref = RecordValue::Object(vec![
        ("$type".to_string(), text("blob")),
        ("ref".to_string(), RecordValue::Object(vec![("$link".to_string(), RecordValue::Link("bafyraw".to_string()))])),
    ]);
    let post = RecordValue::Object(vec![
        ("text".to_string(), text("hi")),
        (
            "embed".to_string(),
            RecordValue::Object(vec![("images".to_string(), RecordValue::List(vec![blob("bafy1"), blob("bafy2"), blob("bafy1")]))]),
        ),
        ("avatar".to_string(), raw_ref),
        ("other".to_string(), RecordValue::Object(vec![("$type".to_string(), text("link")), ("ref".to_string(), RecordValue::Link("no".to_string()))])),
    ]);
    let mut out = vec!["bafy2".to_string()];
    collect_blob_cids(&post, &mut out);
    let mut sorted = out.clone();
    sorted.sort();
    assert_eq!(sorted, vec!["bafy1".to_string(), "bafy2".to_string(), "bafyraw".to_string()]);
}

#[test]
fn record_tally_counts_records_and_distinct_blobs() {
    assert!(is_record_key("app.bsky.feed.post/3k"));
    assert!(!is_record_key("commit"));
    let mut t = RecordTally::new();
    t.record(RecordRead::Decoded(blob("bafy1"))).unwrap();
    t.record(RecordRead::Decoded(blob("bafy1"))).unwrap();
    t.record(RecordRead::Decoded(RecordValue::Other)).unwrap();
    assert_eq!(t.counts(), (3, 1));
    assert_eq!(t.record(RecordRead::Missing).unwrap_err().message, "repo integrity error");
    assert_eq!(t.record(RecordRead::Undecodable).unwrap_err().message, "failed to decode record");
    assert_eq!(status_read_failed(StatusRead::IterateTree).message, "failed to iterate MST");
    assert_eq!(account_found::<u8>(None).unwrap_err().code, ErrorCode::NotFound);
    let r = account_status_response(true, false, None, None, 4, None, 2);
    assert_eq!((r.indexed_records, r.expected_blobs, r.private_state_values), (0, 0, 0));
    let r = account_status_response(true, true, Some("c".to_string()), Some("r".to_string()), 4, Some((7, 2)), 2);
    assert_eq!((r.indexed_records, r.expected_blobs), (7, 2));
}

fn code_row(id: i64, redeemed: bool, revoked: bool, expired: bool) -> ClaimCodeRow {
    ClaimCodeRow {
        id,
        code: format!("CODE{id}"),
        created_at: "c".to_string(),
        expires_at: "e".to_string(),
        redeemed_at: if redeemed { Some("r".to_string()) } else { None },
        revoked_at: if revoked { Some("v".to_string()) } else { None },
        is_expired: expired,
    }
}

#[test]
fn claim_code_statuses() {
    assert_eq!(derive_status(&code_row(1, true, true, true)), "redeemed");
    assert_eq!(derive_status(&code_row(1, false, true, true)), "revoked");
    assert_eq!(derive_status(&code_row(1, false, false, true)), "expired");
    assert_eq!(derive_status(&code_row(1, false, false, false)), "pending");
    assert_eq!(default_list_limit(), 50);
    assert_eq!(default_expires_in_hours(), 24);
}

#[test]
fn claim_code_minting() {
    assert_eq!(validate_mint_request(&ClaimCodesRequest { count: 11, expires_in_hours: 1 }).unwrap_err().message, "count must be between 1 and 10");
    assert_eq!(
        validate_mint_request(&ClaimCodesRequest { count: 2, expires_in_hours: 0 }).unwrap_err().message,
        "expiresInHours must be greater than 0"
    );
    let codes = generate_unique_codes(10).unwrap();
    assert_eq!(codes.len(), 10);
    let unique: std::collections::HashSet<_> = codes.iter().collect();
    assert_eq!(unique.len(), 10);
    assert!(codes.iter().all(|c| c.len() == 6 && c.chars().all(|ch| ch.is_ascii_uppercase() || ch.is_ascii_digit())));
    assert!(generate_unique_codes(0).unwrap().is_empty());
    assert!(matches!(after_insert(1, InsertOutcome::UniqueViolation), MintStep::Retry));
    assert!(matches!(after_insert(2, InsertOutcome::UniqueViolation), MintStep::Fail(_)));
    assert_eq!(expiry_offset(24), "+24 hours");
}

#[test]
fn claim_code_inventory_and_revocation() {
    assert!(validate_list_limit(201).is_err());
    let page = inventory_page(vec![code_row(9, false, false, false), code_row(4, true, false, false)], 2);
    assert_eq!(page.cursor.as_deref(), Some("4"));
    assert_eq!(page.codes[1].status, "redeemed");
    assert!(inventory_page(vec![code_row(9, false, false, false)], 2).cursor.is_none());
    assert_eq!(revoke_response("ABC".to_string(), RevokeClaimCodeOutcome::AlreadyRevoked).unwrap().status, "revoked");
    assert_eq!(revoke_response("ABC".to_string(), RevokeClaimCodeOutcome::Redeemed).unwrap_err().code, ErrorCode::Conflict);
    assert_eq!(revoke_response("ABC".to_string(), RevokeClaimCodeOutcome::NotFound).unwrap_err().message, "unknown claim code");
}

#[test]
fn commit_event_carries_one_op_per_write() {
    let kinds = [Kind::Create, Kind::Update, Kind::Delete];
    let outcomes = [
        WriteOutcome { key: "app.bsky.feed.post/a".to_string(), cid: Some("bafyA".to_string()) },
        WriteOutcome { key: "app.bsky.actor.profile/self".to_string(), cid: Some("bafyB".to_string()) },
        WriteOutcome { key: "app.bsky.feed.like/c".to_string(), cid: None },
    ];
    let ops = commit_ops(&kinds, &outcomes, vec![Some(1), Some(2), None]);
    assert_eq!(ops.len(), 3);
    assert_eq!(ops[0].action, OpAction::Create);
    assert_eq!(ops[0].collection, "app.bsky.feed.post");
    assert_eq!(ops[0].rkey, "a");
    assert_eq!(ops[0].cid.as_deref(), Some("bafyA"));
    assert_eq!(ops[0].value, Some(1));
    assert_eq!(ops[1].action, OpAction::Update);
    assert_eq!(ops[1].rkey, "self");
    assert_eq!(ops[1].value, Some(2));
    assert_eq!(ops[2].action, OpAction::Delete);
    assert_eq!(ops[2].collection, "app.bsky.feed.like");
    assert_eq!(ops[2].cid, None);
    assert_eq!(ops[2].value, None);
}

#[test]
fn record_blocks_decode_into_record_values() {
    let cid = Cid::new_v1(0x55, Multihash::<64>::wrap(0x12, &[7u8; 32]).unwrap());
    let mut inner = BTreeMap::new();
    inner.insert("$type".to_string(), Ipld::String("blob".to_string()));
    inner.insert("ref".to_string(), Ipld::Link(cid));
    inner.insert("size".to_string(), Ipld::Integer(3));
    let mut outer = BTreeMap::new();
    outer.insert("embed".to_string(), Ipld::Map(inner));
    let bytes = serde_ipld_dagcbor::to_vec(&Ipld::Map(outer)).unwrap();

    let mut tally = RecordTally::new();
    match read_record(Ok(Some(bytes))) {
        RecordRead::Decoded(RecordValue::Object(entries)) => {
            assert_eq!(entries.len(), 1);
            assert_eq!(entries[0].0, "embed");
            tally.record(RecordRead::Decoded(RecordValue::Object(entries))).unwrap();
        }
        _ => panic!("a DAG-CBOR map decodes to an object"),
    }
    assert_eq!(tally.blobs, vec![cid.to_string()]);
    assert!(matches!(read_record(Ok(Some(vec![0xff, 0x00]))), RecordRead::Undecodable));
    assert!(matches!(read_record(Ok(None)), RecordRead::Missing));
    assert!(matches!(read_record(Err(())), RecordRead::ReadFailed));
}
