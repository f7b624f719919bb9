use vstd::prelude::*;

pub mod account_state;
pub mod account_storage;
pub mod account_usage;
pub mod activate_account;
pub mod admin_account_repair;
pub mod admin_audit;
pub mod admin_devices;
pub mod admin_health;
pub mod admin_list_accounts;
pub mod admin_recovery_releases;
pub mod admin_notifications;
pub mod admin_relay_status;
pub mod admin_request_crawl;
pub mod admin_revoke_credentials;
pub mod admin_spaces;
pub mod admin_transfers;
pub mod admin_waitlist;
pub mod agent_child;
pub mod agent_claim;
pub mod agent_event;
pub mod agent_identity;
pub mod agent_model;
pub mod agents;
pub mod appview_proxy;
pub mod apply_writes;
pub mod atproto_did;
pub mod auth_md;
pub mod boundary;
pub mod check_account_status;
pub mod clock;
pub mod claim_codes;
pub mod code_gen;
pub mod confirm_email;
pub mod create_account_xrpc;
pub mod error;
pub mod flow;
pub mod ids;
pub mod paging;
pub mod route_contracts;
pub mod text;

verus! {

} // verus!
