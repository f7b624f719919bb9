//! Sovereign child agents provisioned by their parent account: mint, list, revoke, renew the
//! child's capability, and schedule its hosting for deletion. Only the full account owner may act;
//! an unknown or foreign child is the same uniform 404.

use vstd::prelude::*;
use crate::account_state::AccountStateChange;
use crate::agent_model::{AgentIdentityRow, AgentIdentityStatus, OwnerAuthError, identity_status_word};
use crate::boundary::{
    chrono_max_secs, chrono_min_secs, json_string_array, json_string_array_of, rfc3339_utc_secs,
    rfc3339_utc_secs_of,
};
use crate::error::{ApiError, ErrorCode, fails_with, is_api_error};
use crate::flow::Stage;
use crate::text::{owned, str_eq};

verus! {

/// `POST /agent/child` body: the child's handle and its wallet-signed genesis operation (JSON).
#[derive(Debug)]
pub struct MintChildRequest {
    pub handle: String,
    pub plc_op: String,
}

/// The minted child and its first capability. `did_document` is JSON text.
#[derive(Debug)]
pub struct MintChildResponse {
    pub registration_id: String,
    pub did: String,
    pub handle: String,
    pub did_document: String,
    pub identity_assertion: String,
    pub assertion_expires: String,
    pub scopes: Vec<String>,
}

/// One child in the parent's list. `delete_after` is there only for a child whose deletion is
/// scheduled (deletion revokes too, so without it a retired child would look merely revoked).
#[derive(Debug)]
pub struct ChildView {
    pub registration_id: String,
    pub did: String,
    pub handle: String,
    pub status: &'static str,
    pub created_at: String,
    pub scopes: Vec<String>,
    pub delete_after: Option<String>,
}

/// `GET /agent/child` answer.
#[derive(Debug)]
pub struct ChildListResponse {
    pub children: Vec<ChildView>,
}

/// `POST /agent/child/revoke` body.
#[derive(Debug)]
pub struct RevokeChildRequest {
    pub did: String,
}

/// The revoked child.
#[derive(Debug)]
pub struct RevokeChildResponse {
    pub did: String,
    pub status: &'static str,
}

/// `POST /agent/child/assertion` body.
#[derive(Debug)]
pub struct ChildAssertionRequest {
    pub did: String,
}

/// A renewed capability.
#[derive(Debug)]
pub struct ChildAssertionResponse {
    pub did: String,
    pub registration_id: String,
    pub identity_assertion: String,
    pub assertion_expires: String,
    pub scopes: Vec<String>,
}

/// `POST /agent/child/delete` body.
#[derive(Debug)]
pub struct DeleteChildRequest {
    pub did: String,
}

/// A scheduled deletion and the instant after which the child is purged.
#[derive(Debug)]
pub struct DeleteChildResponse {
    pub did: String,
    pub status: &'static str,
    pub delete_after: String,
}

/// The status the firehose `#account` frame reports for a child whose deletion was scheduled.
pub const STATUS_DEACTIVATED: &'static str = "deactivated";

/// The owner guard's refusals on this surface: its own error without a credential, else 403 (an
/// agent-derived or below-full-access credential never acts for the parent).
pub fn owner_error(error: OwnerAuthError) -> (e: ApiError)
    ensures
        match error {
            OwnerAuthError::Unauthenticated(inner) => e == inner,
            _ => is_api_error(e, ErrorCode::Forbidden, "full account-owner authority is required"@),
        },
{
    match error {
        OwnerAuthError::Unauthenticated(inner) => inner,
        OwnerAuthError::AgentDerived | OwnerAuthError::NotFullAccess => ApiError::new(
            ErrorCode::Forbidden,
            "full account-owner authority is required",
        ),
    }
}

/// The parent must be an account hosted here.
pub fn parent_is_local(exists: bool) -> (r: Result<(), ApiError>)
    ensures
        exists ==> r is Ok,
        !exists ==> fails_with(r, ErrorCode::Forbidden, "parent account is not local"@),
{
    if exists {
        Ok(())
    } else {
        Err(ApiError::new(ErrorCode::Forbidden, "parent account is not local"))
    }
}

/// The child the parent asked about (the lookup is already restricted to the parent's children).
pub fn child_of_parent(row: Option<AgentIdentityRow>) -> (r: Result<AgentIdentityRow, ApiError>)
    ensures
        match row {
            Some(c) => r == Ok::<AgentIdentityRow, ApiError>(c),
            None => fails_with(r, ErrorCode::NotFound, "child agent not found"@),
        },
{
    match row {
        Some(c) => Ok(c),
        None => Err(ApiError::new(ErrorCode::NotFound, "child agent not found")),
    }
}

/// Only a live (claimed) child's capability is renewed: renewal is never a way back from
/// revocation.
pub fn renewable(status: AgentIdentityStatus) -> (r: Result<(), ApiError>)
    ensures
        status == AgentIdentityStatus::Claimed ==> r is Ok,
        status != AgentIdentityStatus::Claimed ==> fails_with(r, ErrorCode::Forbidden, "child agent is not active"@),
{
    if status == AgentIdentityStatus::Claimed {
        Ok(())
    } else {
        Err(ApiError::new(ErrorCode::Forbidden, "child agent is not active"))
    }
}

/// The scopes of a stored JSON array: its strings, or none when the text is not such an array.
pub open spec fn stored_scopes_spec(text: Seq<char>) -> Seq<Seq<char>> {
    match json_string_array_of(text) {
        Some(v) => v,
        None => Seq::empty(),
    }
}

/// The stored scopes (`serde_json::from_str(..).unwrap_or_default()`).
pub fn stored_scopes(text: &str) -> (r: Vec<String>)
    ensures
        r.deep_view() == stored_scopes_spec(text@),
{
    match json_string_array(text) {
        Some(v) => v,
        None => Vec::new(),
    }
}

/// The deletion scheduled for `did` among the parent's tombstones `(child DID, delete_after)`:
/// the last one listed for it (a map built from the list keeps the last).
pub open spec fn scheduled_for(scheduled: Seq<(String, String)>, did: Seq<char>) -> Option<Seq<char>>
    decreases scheduled.len(),
{
    if scheduled.len() == 0 {
        None
    } else if scheduled.last().0@ == did {
        Some(scheduled.last().1@)
    } else {
        scheduled_for(scheduled.drop_last(), did)
    }
}

/// The deletion scheduled for `did`, if any.
pub fn scheduled_deletion(scheduled: &[(String, String)], did: &str) -> (r: Option<String>)
    ensures
        match r {
            Some(v) => scheduled_for(scheduled@, did@) == Some(v@),
            None => scheduled_for(scheduled@, did@) is None,
        },
{
    let mut k: usize = scheduled.len();
    assert(scheduled@.take(k as int) =~= scheduled@);
    while k > 0
        invariant
            k <= scheduled@.len(),
            scheduled_for(scheduled@, did@) == scheduled_for(scheduled@.take(k as int), did@),
        decreases k,
    {
        assert(scheduled@.take(k as int).last() == scheduled@[k - 1]);
        assert(scheduled@.take(k as int).drop_last() =~= scheduled@.take(k - 1));
        if str_eq(scheduled[k - 1].0.as_str(), did) {
            return Some(owned(scheduled[k - 1].1.as_str()));
        }
        k = k - 1;
    }
    None
}

/// One child of the list: its DID (empty if the row has none), its handle (empty if unbound), its
/// status word, stored scopes, and any scheduled deletion.
pub fn child_view(row: &AgentIdentityRow, handle: Option<String>, scheduled: &[(String, String)]) -> (v: ChildView)
    ensures
        v.registration_id@ == row.id@,
        v.did@ == (match row.did {
            Some(d) => d@,
            None => Seq::<char>::empty(),
        }),
        v.handle@ == (match handle {
            Some(h) => h@,
            None => Seq::<char>::empty(),
        }),
        v.status@ == identity_status_word(row.status),
        v.created_at@ == row.created_at@,
        v.scopes.deep_view() == stored_scopes_spec(row.scopes@),
        match v.delete_after {
            Some(d) => scheduled_for(scheduled@, v.did@) == Some(d@),
            None => scheduled_for(scheduled@, v.did@) is None,
        },
{
    let did = match &row.did {
        Some(d) => owned(d.as_str()),
        None => String::new(),
    };
    let handle = match handle {
        Some(h) => h,
        None => String::new(),
    };
    let delete_after = scheduled_deletion(scheduled, did.as_str());
    ChildView {
        registration_id: owned(row.id.as_str()),
        did,
        handle,
        status: row.status.as_str(),
        created_at: owned(row.created_at.as_str()),
        scopes: stored_scopes(row.scopes.as_str()),
        delete_after,
    }
}

/// The revoked child's answer.
pub fn child_revoked(did: String) -> (r: RevokeChildResponse)
    ensures
        r.did@ == did@,
        r.status@ == "revoked"@,
{
    RevokeChildResponse { did, status: "revoked" }
}

/// The configured grace window in seconds as a signed count, saturating at `i64::MAX`.
pub fn deletion_grace(configured: u64) -> (g: i64)
    ensures
        configured <= i64::MAX ==> g == configured as i64,
        configured > i64::MAX ==> g == i64::MAX,
{
    if configured <= i64::MAX as u64 {
        configured as i64
    } else {
        i64::MAX
    }
}

/// The largest number of seconds a chrono duration holds (`i64::MAX` milliseconds).
pub open spec fn max_duration_secs() -> int {
    i64::MAX / 1000
}

/// The purge instant of a child deleted at `now` with grace `grace`, as RFC 3339 text: `None` when
/// the grace is beyond what a duration holds or the instant beyond what a date holds.
pub open spec fn delete_after_text(now: int, grace: int) -> Option<Seq<char>> {
    if grace > max_duration_secs() || grace < -max_duration_secs() {
        None
    } else if now + grace < chrono_min_secs() || now + grace > chrono_max_secs() {
        None
    } else {
        rfc3339_utc_secs_of((now + grace) as i64)
    }
}

/// The text an optional `String` holds.
pub open spec fn text_of(r: Option<String>) -> Option<Seq<char>> {
    match r {
        Some(v) => Some(v@),
        None => None,
    }
}

/// When a child deleted at `now_secs` (Unix seconds) with grace `grace` is purged, as RFC 3339
/// UTC with whole seconds. `None` when the grace is beyond what a duration holds or the instant
/// beyond what a date holds.
pub fn delete_after_at(now_secs: i64, grace: i64) -> (r: Option<String>)
    ensures
        text_of(r) == delete_after_text(now_secs as int, grace as int),
        r is Some <==> (-max_duration_secs() <= grace <= max_duration_secs() && chrono_min_secs()
            <= now_secs + grace <= chrono_max_secs()),
        (grace > max_duration_secs() || grace < -max_duration_secs()) ==> r is None,
        (-max_duration_secs() <= grace <= max_duration_secs()) ==> (match r {
            Some(v) => i64::MIN <= now_secs + grace <= i64::MAX && rfc3339_utc_secs_of(
                (now_secs + grace) as i64,
            ) == Some(v@),
            None => !(i64::MIN <= now_secs + grace <= i64::MAX) || rfc3339_utc_secs_of(
                (now_secs + grace) as i64,
            ) is None,
        }),
{
    if grace > i64::MAX / 1000 || grace < -(i64::MAX / 1000) {
        return None;
    }
    match now_secs.checked_add(grace) {
        None => None,
        Some(at) => rfc3339_utc_secs(at),
    }
}

/// What the deletion answers after deactivating with outcome `change`: a frame for a fresh
/// transition, none when the account was already deactivated, 404 when it is missing.
pub open spec fn deactivation_frame_answers(change: AccountStateChange, r: Result<bool, ApiError>) -> bool {
    &&& (change == AccountStateChange::Changed ==> r == Ok::<bool, ApiError>(true))
    &&& (change == AccountStateChange::Unchanged ==> r == Ok::<bool, ApiError>(false))
    &&& (change == AccountStateChange::NotFound ==> fails_with(r, ErrorCode::NotFound, "child agent not found"@))
}

/// Deactivating an existing account that is `active`: an active one becomes deactivated (a
/// transition); a deactivated one stays so (no change). Either way it is deactivated after.
pub open spec fn deactivation_of(active: bool) -> (AccountStateChange, bool) {
    if active {
        (AccountStateChange::Changed, false)
    } else {
        (AccountStateChange::Unchanged, false)
    }
}

/// Deleting a child twice announces it once: the first deletion deactivates the account, so the
/// second finds it deactivated already and stages no second `#account` frame (and a first
/// deletion of an active child stages exactly one).
pub proof fn deleting_a_child_twice_frames_once(active: bool)
    ensures
        forall|r: Result<bool, ApiError>|
            #[trigger] deactivation_frame_answers(deactivation_of(deactivation_of(active).1).0, r) ==> r
                == Ok::<bool, ApiError>(false),
        active ==> forall|r: Result<bool, ApiError>|
            #[trigger] deactivation_frame_answers(deactivation_of(active).0, r) ==> r == Ok::<bool, ApiError>(
                true,
            ),
{
}

/// After deactivating the child: a fresh transition is announced with a `#account` frame
/// (inactive, `deactivated`) so relays stop serving its repo at once; an account already
/// deactivated only had its schedule refreshed (no frame); a missing account is a 404 and the
/// transaction is rolled back. `Ok(true)` means a frame is staged.
pub fn deactivation_frame(change: AccountStateChange) -> (r: Result<bool, ApiError>)
    ensures
        deactivation_frame_answers(change, r),
{
    match change {
        AccountStateChange::Changed => Ok(true),
        AccountStateChange::Unchanged => Ok(false),
        AccountStateChange::NotFound => Err(ApiError::new(ErrorCode::NotFound, "child agent not found")),
    }
}

/// A failure while scheduling a deletion.
pub fn deletion_error() -> (e: ApiError)
    ensures
        is_api_error(e, ErrorCode::InternalError, "failed to schedule child deletion"@),
{
    ApiError::new(ErrorCode::InternalError, "failed to schedule child deletion")
}

/// A failure while renewing a capability.
pub fn renewal_error() -> (e: ApiError)
    ensures
        is_api_error(e, ErrorCode::InternalError, "failed to renew child capability"@),
{
    ApiError::new(ErrorCode::InternalError, "failed to renew child capability")
}

/// The scheduled deletion's answer.
pub fn deletion_scheduled(did: String, delete_after: String) -> (r: DeleteChildResponse)
    ensures
        r.did@ == did@,
        r.status@ == "deletion_scheduled"@,
        r.delete_after@ == delete_after@,
{
    DeleteChildResponse { did, status: "deletion_scheduled", delete_after }
}

/// The stages of deleting a child, in order.
#[derive(Clone, Copy, Debug, PartialEq, Eq, Structural)]
pub enum DeleteChildStage {
    AuthenticateOwner,
    /// The child must be one of the owner's (uniform 404).
    LoadChild,
    /// Its handle (carried by the tombstone) and the purge instant.
    Schedule,
    Begin,
    /// Deletion implies revocation.
    Revoke,
    /// Deactivate and set `delete_after`; a fresh transition stages the `#account` frame.
    Deactivate,
    /// The durable deletion tombstone (upserted, so a repeat delete is idempotent).
    RecordTombstone,
    Commit,
}

impl Stage for DeleteChildStage {
    open spec fn successor(self) -> Option<DeleteChildStage> {
        match self {
            DeleteChildStage::AuthenticateOwner => Some(DeleteChildStage::LoadChild),
            DeleteChildStage::LoadChild => Some(DeleteChildStage::Schedule),
            DeleteChildStage::Schedule => Some(DeleteChildStage::Begin),
            DeleteChildStage::Begin => Some(DeleteChildStage::Revoke),
            DeleteChildStage::Revoke => Some(DeleteChildStage::Deactivate),
            DeleteChildStage::Deactivate => Some(DeleteChildStage::RecordTombstone),
            DeleteChildStage::RecordTombstone => Some(DeleteChildStage::Commit),
            DeleteChildStage::Commit => None,
        }
    }

    fn following(&self) -> (r: Option<DeleteChildStage>) {
        match self {
            DeleteChildStage::AuthenticateOwner => Some(DeleteChildStage::LoadChild),
            DeleteChildStage::LoadChild => Some(DeleteChildStage::Schedule),
            DeleteChildStage::Schedule => Some(DeleteChildStage::Begin),
            DeleteChildStage::Begin => Some(DeleteChildStage::Revoke),
            DeleteChildStage::Revoke => Some(DeleteChildStage::Deactivate),
            DeleteChildStage::Deactivate => Some(DeleteChildStage::RecordTombstone),
            DeleteChildStage::RecordTombstone => Some(DeleteChildStage::Commit),
            DeleteChildStage::Commit => None,
        }
    }
}

/// The stages of renewing a child's capability, in order.
#[derive(Clone, Copy, Debug, PartialEq, Eq, Structural)]
pub enum RemintStage {
    AuthenticateOwner,
    LoadChild,
    /// Only a claimed child is renewed.
    CheckActive,
    /// Clamp the child's scopes to the currently granted ones and mint the assertion.
    Mint,
    Begin,
    /// Store the assertion.
    StoreAssertion,
    /// Its audit row, in the same transaction.
    Audit,
    Commit,
}

impl Stage for RemintStage {
    open spec fn successor(self) -> Option<RemintStage> {
        match self {
            RemintStage::AuthenticateOwner => Some(RemintStage::LoadChild),
            RemintStage::LoadChild => Some(RemintStage::CheckActive),
            RemintStage::CheckActive => Some(RemintStage::Mint),
            RemintStage::Mint => Some(RemintStage::Begin),
            RemintStage::Begin => Some(RemintStage::StoreAssertion),
            RemintStage::StoreAssertion => Some(RemintStage::Audit),
            RemintStage::Audit => Some(RemintStage::Commit),
            RemintStage::Commit => None,
        }
    }

    fn following(&self) -> (r: Option<RemintStage>) {
        match self {
            RemintStage::AuthenticateOwner => Some(RemintStage::LoadChild),
            RemintStage::LoadChild => Some(RemintStage::CheckActive),
            RemintStage::CheckActive => Some(RemintStage::Mint),
            RemintStage::Mint => Some(RemintStage::Begin),
            RemintStage::Begin => Some(RemintStage::StoreAssertion),
            RemintStage::StoreAssertion => Some(RemintStage::Audit),
            RemintStage::Audit => Some(RemintStage::Commit),
            RemintStage::Commit => None,
        }
    }
}


/// When a child deleted now with grace `grace` is purged (see [`delete_after_at`]). The clock
/// decides the instant: a text that comes back is the purge text for some reading of it between
/// the Unix epoch and chrono's latest date; `None` also when the clock cannot be read.
pub fn delete_after_now(grace: i64) -> (r: Option<String>)
    ensures
        r is Some ==> exists|now: int|
            0 <= now <= chrono_max_secs() && text_of(r) == #[trigger] delete_after_text(now, grace as int),
        (grace > max_duration_secs() || grace < -max_duration_secs()) ==> r is None,
{
    let now = match crate::clock::now_instant() {
        Some(now) => now,
        None => return None,
    };
    let r = delete_after_at(now.0, grace);
    proof {
        assert(text_of(r) == delete_after_text(now.0 as int, grace as int));
    }
    r
}

} // verus!
