use pds::appview_proxy::{check_body_size, forwards_body, outbound_headers, proxy_target, relayed_status, unreachable_error};
use pds::atproto_did::{handle_for_host, well_known_answer, WellKnownAnswer};
use pds::auth_md::render_auth_md;
use pds::error::ErrorCode;
use pds::route_contracts::{AuthedRoute, Guard};

#[test]
fn appview_targets_keep_the_query() {
    assert_eq!(
        proxy_target("https://api.bsky.app", "app.bsky.feed.getTimeline", Some("limit=5&cursor=x")),
        "https://api.bsky.app/xrpc/app.bsky.feed.getTimeline?limit=5&cursor=x"
    );
    assert_eq!(proxy_target("https://av", "app.bsky.actor.getProfile", None), "https://av/xrpc/app.bsky.actor.getProfile");
}

#[test]
fn appview_request_shape() {
    assert!(check_body_size(1_048_576).is_ok());
    let e = check_body_size(1_048_577).unwrap_err();
    assert_eq!((e.code, e.message.as_str()), (ErrorCode::PayloadTooLarge, "request body exceeds the AppView proxy limit"));
    let h = outbound_headers(Some("Bearer t".to_string()), None, "did:web:api.bsky.app#bsky_appview");
    assert_eq!(h.len(), 2);
    assert_eq!(h[0], ("authorization".to_string(), "Bearer t".to_string()));
    assert_eq!(h[1].0, "atproto-proxy");
    assert!(!forwards_body(0));
    assert_eq!(relayed_status(404), 404);
    assert_eq!(relayed_status(42), 502);
    assert_eq!(unreachable_error().code, ErrorCode::ServiceUnavailable);
}

#[test]
fn well_known_did_strips_the_port() {
    assert_eq!(handle_for_host("alice.example.com:8080"), "alice.example.com");
    assert_eq!(handle_for_host("alice.example.com"), "alice.example.com");
    assert!(matches!(well_known_answer(true, Some("did:plc:a".to_string())), WellKnownAnswer::Did(ref d) if d == "did:plc:a"));
    assert!(matches!(well_known_answer(true, None), WellKnownAnswer::NotFound));
    assert!(matches!(well_known_answer(false, None), WellKnownAnswer::NoHost));
}

#[test]
fn auth_md_substitutes_instance_facts() {
    let template = "See {{public_url}}/agent/identity on {{service_name}} ({{public_url}}/auth.md).";
    assert_eq!(
        render_auth_md(template, "https://pds.example.com/", "Custos Relay"),
        "See https://pds.example.com/agent/identity on Custos Relay (https://pds.example.com/auth.md)."
    );
    let body = render_auth_md(template, "https://test.example.com", "custos");
    assert!(!body.contains("{{"));
    assert!(!body.contains("example.com//"));
}

#[test]
fn contract_rows_are_labelled_by_method_and_path() {
    let row = AuthedRoute {
        method: "POST",
        path: "/xrpc/com.atproto.server.activateAccount",
        body: None,
        guard: Guard::Access,
        missing_auth_error: Some("AuthenticationRequired"),
        refresh_scope_error: None,
    };
    assert_eq!(row.label(), "POST /xrpc/com.atproto.server.activateAccount");
}
