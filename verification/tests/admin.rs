use pds::admin_account_repair::{
    check_new_email, current_email, db_error, email_change_detail, email_repaired, email_unclaimed, email_updated,
    reset_token_issued, resettable_password, EmailRepairStage,
};
use pds::admin_audit::{action_filter, audit_cursor, audit_detail, before_seq, AuditDetail};
use pds::admin_health::{backfill_window, backfill_window_now, stats_error, SweepRun, SweepState};
use pds::admin_list_accounts::{
    account_entry, accounts_page, list_cursor, list_limit, quota_bytes, search_term, status_filter, AccountLifecycle,
    AccountRow,
};
use pds::admin_notifications::{registering_device, registration_pending, AdminActor};
use pds::admin_recovery_releases::{release_view, PendingReleaseRow};
use pds::admin_relay_status::{cursor_time, cursor_to_look_up, no_relay_readout, relay_gap, relay_readout, RelayReport};
use pds::admin_request_crawl::{accepted_count, crawl_detail, crawl_report, require_relays};
use pds::admin_revoke_credentials::{account_present, revocation_response, sweep_detail, sweep_error, RevocationCounts};
use pds::admin_spaces::{space_entry, space_present, takedown_action, takedown_filter, takedown_response, SpaceAuditAction, SpaceRow};
use pds::admin_transfers::{cancel_answer, check_list_limit, default_list_limit, parse_cursor, transfers_cursor, CancelOutcome};
use pds::admin_waitlist::{before_rowid, waitlist_cursor};
use pds::error::ErrorCode;
use pds::flow::{after_stage, Next};

#[test]
fn email_repair_decisions() {
    assert_eq!(check_new_email(false).unwrap_err().message, "invalid email address");
    assert!(check_new_email(true).is_ok());
    assert_eq!(current_email(Ok(Some("a@b.c".to_string()))).unwrap(), "a@b.c");
    let e = current_email(Ok(None)).unwrap_err();
    assert_eq!((e.code, e.message.as_str()), (ErrorCode::NotFound, "account not found"));
    assert_eq!(current_email(Err(())).unwrap_err().message, "failed to repair account");
    assert!(email_unclaimed(Ok(0)).is_ok());
    assert_eq!(email_unclaimed(Ok(1)).unwrap_err().message, "this email address is already in use");
    assert_eq!(email_updated(Err(true)).unwrap_err().message, "this email address is already in use");
    assert_eq!(email_updated(Err(false)).unwrap_err().code, ErrorCode::InternalError);
    assert_eq!(db_error().message, "failed to repair account");
}

#[test]
fn email_repair_resets_confirmation() {
    let r = email_repaired("did:plc:x".to_string(), "correct@example.com".to_string());
    assert_eq!(r.email, "correct@example.com");
    assert!(!r.email_confirmed);
}

#[test]
fn email_change_detail_records_both_addresses() {
    let d = email_change_detail("wrong@example.com", "correct@example.com");
    assert_eq!(d, r#"{"newEmail":"correct@example.com","previousEmail":"wrong@example.com"}"#);
    // The quoting escapes what JSON needs escaped.
    assert_eq!(email_change_detail("a\"b", "c"), r#"{"newEmail":"c","previousEmail":"a\"b"}"#);
    assert_eq!(
        email_change_detail("x\\y\u{1}\t", "\u{7f}\u{e9}"),
        "{\"newEmail\":\"\u{7f}\u{e9}\",\"previousEmail\":\"x\\\\y\\u0001\\t\"}"
    );
}

#[test]
fn reset_token_only_for_a_password() {
    assert!(resettable_password(Ok(Some(Some("hash".to_string())))).is_ok());
    assert_eq!(resettable_password(Ok(Some(None))).unwrap_err().message, "account has no password to reset");
    assert_eq!(resettable_password(Ok(Some(Some(String::new())))).unwrap_err().message, "account has no password to reset");
    assert_eq!(resettable_password(Ok(None)).unwrap_err().code, ErrorCode::NotFound);
    let r = reset_token_issued("did:plc:x".to_string(), "tok".to_string());
    assert_eq!(r.expires_in, 3600);
    assert_eq!(r.token, "tok");
}

#[test]
fn email_repair_stages_stop_on_the_first_error() {
    match after_stage(&EmailRepairStage::LoadAccount, Ok::<(), ()>(())) {
        Next::Run(s) => assert_eq!(s, EmailRepairStage::CheckConflict),
        _ => panic!("expected the next stage"),
    }
    match after_stage(&EmailRepairStage::Update, Err::<(), &str>("boom")) {
        Next::Stop(e) => assert_eq!(e, "boom"),
        _ => panic!("expected a stop"),
    }
    assert!(matches!(after_stage(&EmailRepairStage::Commit, Ok::<(), ()>(())), Next::Done));
}

#[test]
fn revoke_credentials_reports_counts() {
    let c = RevocationCounts { sessions: 2, app_passwords: 1, oauth_tokens: 3, oauth_codes: 0, transfer_devices: 1 };
    let r = revocation_response(&c);
    assert_eq!(
        (r.sessions_revoked, r.app_passwords_revoked, r.oauth_tokens_revoked, r.oauth_codes_revoked, r.transfer_device_tokens_revoked),
        (2, 1, 3, 0, 1)
    );
    assert_eq!(
        sweep_detail(&c),
        r#"{"appPasswordsRevoked":1,"oauthCodesRevoked":0,"oauthTokensRevoked":3,"sessionsRevoked":2,"transferDeviceTokensRevoked":1}"#
    );
    assert_eq!(account_present(false).unwrap_err().message, "account not found");
    assert_eq!(sweep_error().message, "failed to revoke credentials");
}

#[test]
fn relay_readouts() {
    let none = no_relay_readout(7, "t".to_string());
    assert_eq!(none.detail.as_deref(), Some("no relay configured"));
    assert!(!none.reachable);
    assert_eq!(none.pds_head_seq, 7);

    let found = relay_readout(
        "bsky.network".to_string(),
        RelayReport::Found { seq: Some(95), account_count: Some(3), status: Some("active".to_string()) },
        100,
        Some("2026-01-01T00:00:00Z".to_string()),
        "now".to_string(),
    );
    assert!(found.reachable);
    assert_eq!(found.gap, Some(5));
    assert_eq!(found.relay_cursor_at.as_deref(), Some("2026-01-01T00:00:00Z"));
    assert!(found.detail.is_none());

    let missing = relay_readout("r".to_string(), RelayReport::NotFound, 10, Some("x".to_string()), "now".to_string());
    assert!(missing.reachable);
    assert_eq!(missing.detail.as_deref(), Some("relay has not crawled this host"));
    assert!(missing.relay_cursor_at.is_none());

    let down = relay_readout("r".to_string(), RelayReport::Unreachable("timeout".to_string()), 10, None, "now".to_string());
    assert!(!down.reachable);
    assert_eq!(down.detail.as_deref(), Some("timeout"));
}

#[test]
fn relay_gap_is_signed() {
    assert_eq!(relay_gap(10, Some(12)), Some(-2));
    assert_eq!(relay_gap(10, None), None);
    assert_eq!(cursor_to_look_up(Some(0)), None);
    assert_eq!(cursor_to_look_up(Some(4)), Some(4));
    assert_eq!(cursor_time(Err(())), None);
    assert_eq!(cursor_time(Ok(Some("t".to_string()))).as_deref(), Some("t"));
}

#[test]
fn backfill_window_is_truncated_and_never_negative() {
    // 2026-01-01T00:00:00Z is 1767225600.
    assert_eq!(backfill_window(Some("2026-01-01T00:00:00Z"), (1767225690, 500_000_000)), Some(90));
    assert_eq!(backfill_window(Some("2026-01-01T00:00:00.900Z"), (1767225690, 0)), Some(89));
    assert_eq!(backfill_window(Some("2026-01-01T00:00:00Z"), (1767225000, 0)), Some(0));
    assert_eq!(backfill_window(Some("not a time"), (1767225690, 0)), None);
    assert_eq!(backfill_window(None, (1767225690, 0)), None);
    assert!(backfill_window_now(Some("2020-01-01T00:00:00Z")).unwrap() > 0);
    assert_eq!(stats_error().message, "failed to gather server stats");
}

#[test]
fn sweep_state_from_run() {
    let s: SweepState = SweepState::from(SweepRun { completed_at: 12, swept: 3 });
    assert_eq!((s.completed_at, s.swept), (12, 3));
}

#[test]
fn account_listing_filters() {
    assert!(matches!(status_filter(Some("suspended")), Ok(Some(AccountLifecycle::Suspended))));
    assert!(matches!(status_filter(None), Ok(None)));
    assert_eq!(
        status_filter(Some("bogus")).unwrap_err().message,
        "status must be one of: active, deactivated, suspended, takendown"
    );
    assert_eq!(list_limit(None), 50);
    assert_eq!(list_limit(Some(0)), 1);
    assert_eq!(list_limit(Some(500)), 100);
    assert_eq!(list_cursor(None), "");
    assert_eq!(search_term(Some("  alice ")).as_deref(), Some("alice"));
    assert_eq!(search_term(Some("   ")), None);
    assert_eq!(quota_bytes(u64::MAX), i64::MAX);
    assert_eq!(quota_bytes(1024), 1024);
}

fn row(did: &str, lifecycle: AccountLifecycle) -> AccountRow {
    AccountRow { did: did.to_string(), handle: None, created_at: "c".to_string(), lifecycle, blob_bytes: 5 }
}

#[test]
fn account_page_states_active_and_cursors_full_pages() {
    let e = account_entry(row("did:a", AccountLifecycle::Active));
    assert_eq!(e.status, "active");
    let page = accounts_page(vec![row("did:a", AccountLifecycle::TakenDown), row("did:b", AccountLifecycle::Deactivated)], 2, 9);
    assert_eq!(page.accounts.len(), 2);
    assert_eq!(page.accounts[0].status, "takendown");
    assert_eq!(page.cursor.as_deref(), Some("did:b"));
    assert_eq!(page.quota_bytes, 9);
    let short = accounts_page(vec![row("did:a", AccountLifecycle::Suspended)], 2, 9);
    assert!(short.cursor.is_none());
}

#[test]
fn master_token_cannot_register_push() {
    assert_eq!(registering_device(AdminActor::Device("dev-1".to_string())).unwrap(), "dev-1");
    assert_eq!(
        registering_device(AdminActor::MasterToken).unwrap_err().message,
        "notification registration requires a device-signed request, not the master token"
    );
    assert_eq!(registration_pending().status, "pending");
}

#[test]
fn space_moderation_decisions() {
    assert_eq!(takedown_filter(None).unwrap(), false);
    assert_eq!(takedown_filter(Some("takendown")).unwrap(), true);
    assert_eq!(takedown_filter(Some("active")).unwrap_err().message, "unknown status filter: active");
    assert_eq!(space_present(false).unwrap_err().message, "space not found");
    assert_eq!(takedown_action(true), SpaceAuditAction::SpaceTakedown);
    assert_eq!(takedown_action(false), SpaceAuditAction::SpaceRestore);
    let r = takedown_response("at://x/space/t/k".to_string(), Some("2026".to_string()));
    assert!(r.applied);
    let cleared = takedown_response("at://x/space/t/k".to_string(), None);
    assert!(!cleared.applied);
    let e = space_entry(SpaceRow {
        uri: "u".to_string(),
        authority_did: "did:a".to_string(),
        has_policy: false,
        created_at: "c".to_string(),
        deleted_at: None,
        takendown_at: None,
        repo_count: 2,
        record_count: 7,
    });
    assert!(!e.local_authority);
    assert_eq!(e.record_count, 7);
}

#[test]
fn audit_log_query_parsing() {
    assert!(matches!(action_filter::<u8>(Some(None)), Err(ref e) if e.message == "unknown action filter"));
    assert_eq!(action_filter(Some(Some(3u8))).unwrap(), Some(3));
    assert_eq!(before_seq(Some("42")).unwrap(), Some(42));
    assert_eq!(before_seq(Some("x")).unwrap_err().message, "malformed cursor");
    assert_eq!(audit_cursor(&[9, 7], 2).as_deref(), Some("7"));
    assert_eq!(audit_cursor(&[9], 2), None);
    assert!(matches!(audit_detail(Some("{\"a\":1}".to_string())), Some(AuditDetail::Structured(_))));
    assert!(matches!(audit_detail(Some("not json".to_string())), Some(AuditDetail::Verbatim(ref v)) if v == "not json"));
    assert!(audit_detail(None).is_none());
}

#[test]
fn transfer_listing_and_cancel() {
    assert_eq!(default_list_limit(), 50);
    assert_eq!(check_list_limit(0).unwrap_err().message, "limit must be between 1 and 200");
    assert!(check_list_limit(200).is_ok());
    assert_eq!(
        parse_cursor(Some("2026-01-01 00:00:00|abc|d")).unwrap(),
        Some(("2026-01-01 00:00:00".to_string(), "abc|d".to_string()))
    );
    assert_eq!(parse_cursor(Some("nobar")).unwrap_err().message, "malformed cursor");
    let keys = vec![("t1".to_string(), "id1".to_string()), ("t2".to_string(), "id2".to_string())];
    assert_eq!(transfers_cursor(&keys, 2).as_deref(), Some("t2|id2"));
    assert_eq!(transfers_cursor(&keys, 3), None);

    let (resp, detail) = cancel_answer("t-1".to_string(), CancelOutcome::Cancelled { revoked_device_credential: true }).unwrap();
    assert_eq!((resp.status, resp.revoked_device_credential), ("cancelled", true));
    assert_eq!(detail.as_deref(), Some(r#"{"revokedDeviceCredential":true}"#));
    let (again, none) = cancel_answer("t-1".to_string(), CancelOutcome::AlreadyCancelled).unwrap();
    assert!(!again.revoked_device_credential && none.is_none());
    let e = cancel_answer("t-1".to_string(), CancelOutcome::Terminal { status: "complete".to_string() }).unwrap_err();
    assert_eq!((e.code, e.message.as_str()), (ErrorCode::Conflict, "transfer is already complete"));
    assert_eq!(cancel_answer("x".to_string(), CancelOutcome::NotFound).unwrap_err().message, "unknown transfer");
}

#[test]
fn waitlist_paging() {
    assert_eq!(before_rowid(Some("-3")).unwrap(), Some(-3));
    assert_eq!(before_rowid(Some("1.5")).unwrap_err().message, "malformed cursor");
    assert_eq!(waitlist_cursor(&[5, 4, 3], 3).as_deref(), Some("3"));
}

#[test]
fn crawl_request_tally() {
    assert_eq!(require_relays(0).unwrap_err().message, "no relay is configured to crawl this server");
    assert_eq!(accepted_count(&[true, false, true]), 2);
    assert_eq!(crawl_detail(3, 2), r#"{"accepted":2,"requested":3}"#);
    let r = crawl_report(vec!["a", "b"], 1);
    assert_eq!((r.requested, r.accepted), (2, 1));
}

#[test]
fn recovery_release_view() {
    let v = release_view(PendingReleaseRow {
        did: "did:a".to_string(),
        release_requested_at: "r".to_string(),
        release_pending_until: Some("p".to_string()),
        available: true,
    });
    assert_eq!(v.available_at.as_deref(), Some("p"));
    assert!(v.available);
}

#[test]
fn every_listed_status_filters_back_to_its_lifecycle() {
    for l in [AccountLifecycle::Active, AccountLifecycle::Deactivated, AccountLifecycle::Suspended, AccountLifecycle::TakenDown] {
        let entry = account_entry(row("did:x", l));
        assert_eq!(status_filter(Some(entry.status)).unwrap(), Some(l));
    }
}

#[test]
fn a_repeat_sweep_reports_zero() {
    let none = RevocationCounts { sessions: 0, app_passwords: 0, oauth_tokens: 0, oauth_codes: 0, transfer_devices: 0 };
    let r = revocation_response(&none);
    assert_eq!(
        (r.sessions_revoked, r.app_passwords_revoked, r.oauth_tokens_revoked, r.oauth_codes_revoked, r.transfer_device_tokens_revoked),
        (0, 0, 0, 0, 0)
    );
}
