//! `com.atproto.repo.applyWrites`: a batch of record creates/updates/deletes applied in one
//! atomic commit. This module holds every decision of the route: the caller and batch checks, the
//! resolution of each write to a record key and engine operation, the repo-state preconditions
//! (existence, activation, `swapCommit`), the error mapping of the repo engine, and the per-write
//! results, in batch order.

use vstd::prelude::*;
use crate::flow::Stage;
use crate::error::{ApiError, ErrorCode, fails_with};
use crate::text::{owned, split_once_char, split_once_spec, str_eq};

verus! {

/// One write of the batch, tagged by its `$type`. `V` is the record value, carried through
/// untouched.
#[derive(Debug)]
pub enum WriteItem<V> {
    Create { collection: String, rkey: Option<String>, value: V },
    Update { collection: String, rkey: String, value: V },
    Delete { collection: String, rkey: String },
}

/// `POST /xrpc/com.atproto.repo.applyWrites` body.
#[derive(Debug)]
pub struct ApplyWritesBody<V> {
    pub repo: String,
    pub writes: Vec<WriteItem<V>>,
    pub swap_commit: Option<String>,
    pub validate: Option<bool>,
}

/// The variant of a write, kept for building its result.
#[derive(Clone, Copy, Debug, PartialEq, Eq, Structural)]
pub enum Kind {
    Create,
    Update,
    Delete,
}

/// The repo engine operation a write becomes.
#[derive(Debug)]
pub enum WriteOp<V> {
    Create { key: String, value: V },
    Update { key: String, value: V },
    Delete { key: String },
}

/// A write split into its parts: variant, collection, record key (absent when a create needs a
/// fresh TID) and value (absent for a delete).
#[derive(Debug)]
pub struct SplitWrite<V> {
    pub kind: Kind,
    pub collection: String,
    pub rkey: Option<String>,
    pub value: Option<V>,
}

/// Check the caller and the batch before any repo work: the repo DID must be well formed
/// (`did_valid`), the access token must verify (`subject` is its `sub`, or the verification
/// error), its subject must own the repo, and the batch must not be empty.
pub fn check_request(did_valid: bool, subject: Result<String, ApiError>, repo: &str, write_count: usize) -> (r:
    Result<(), ApiError>)
    ensures
        !did_valid ==> fails_with(r, ErrorCode::InvalidClaim, "invalid DID format"@),
        did_valid && subject is Err ==> r is Err && r->Err_0 == subject->Err_0,
        did_valid && subject is Ok && subject->Ok_0@ != repo@ ==> fails_with(
            r,
            ErrorCode::Forbidden,
            "authenticated account does not own this repository"@,
        ),
        did_valid && subject is Ok && subject->Ok_0@ == repo@ && write_count == 0 ==> fails_with(
            r,
            ErrorCode::InvalidClaim,
            "writes array must not be empty"@,
        ),
        r is Ok <==> (did_valid && subject is Ok && subject->Ok_0@ == repo@ && write_count > 0),
{
    if !did_valid {
        return Err(ApiError::new(ErrorCode::InvalidClaim, "invalid DID format"));
    }
    let sub = match subject {
        Ok(s) => s,
        Err(e) => return Err(e),
    };
    if !str_eq(sub.as_str(), repo) {
        return Err(
            ApiError::new(ErrorCode::Forbidden, "authenticated account does not own this repository"),
        );
    }
    if write_count == 0 {
        return Err(ApiError::new(ErrorCode::InvalidClaim, "writes array must not be empty"));
    }
    Ok(())
}

/// The variant of a write item.
pub open spec fn kind_of<V>(item: WriteItem<V>) -> Kind {
    match item {
        WriteItem::Create { .. } => Kind::Create,
        WriteItem::Update { .. } => Kind::Update,
        WriteItem::Delete { .. } => Kind::Delete,
    }
}

/// Split a write: a create with an absent or empty record key asks for a fresh TID (`rkey` is
/// `None`); every other write keeps its key; creates and updates carry their value.
pub fn split_write<V>(item: WriteItem<V>) -> (r: SplitWrite<V>)
    ensures
        r.kind == kind_of(item),
        match item {
            WriteItem::Create { collection, rkey, value } => r.collection@ == collection@
                && r.value == Some(value) && match rkey {
                Some(k) => if k@.len() > 0 {
                    r.rkey is Some && r.rkey->0@ == k@
                } else {
                    r.rkey is None
                },
                None => r.rkey is None,
            },
            WriteItem::Update { collection, rkey, value } => r.collection@ == collection@
                && r.value == Some(value) && r.rkey is Some && r.rkey->0@ == rkey@,
            WriteItem::Delete { collection, rkey } => r.collection@ == collection@ && r.value is None
                && r.rkey is Some && r.rkey->0@ == rkey@,
        },
{
    match item {
        WriteItem::Create { collection, rkey, value } => {
            let rkey = match rkey {
                Some(k) => if k.as_str().is_empty() {
                    None
                } else {
                    Some(k)
                },
                None => None,
            };
            SplitWrite { kind: Kind::Create, collection, rkey, value: Some(value) }
        },
        WriteItem::Update { collection, rkey, value } => SplitWrite {
            kind: Kind::Update,
            collection,
            rkey: Some(rkey),
            value: Some(value),
        },
        WriteItem::Delete { collection, rkey } => SplitWrite {
            kind: Kind::Delete,
            collection,
            rkey: Some(rkey),
            value: None,
        },
    }
}

/// The record key `<collection>/<rkey>`.
pub open spec fn record_key_spec(collection: Seq<char>, rkey: Seq<char>) -> Seq<char> {
    collection + "/"@ + rkey
}

/// `format!("{collection}/{rkey}")`.
pub fn record_key(collection: &str, rkey: &str) -> (r: String)
    ensures
        r@ == record_key_spec(collection@, rkey@),
{
    let mut r = owned(collection);
    r.append("/");
    r.append(rkey);
    r
}

/// The engine operation for a resolved write. A create or update always carries its value; the
/// combination without one cannot arise from `split_write` and is answered as an internal error.
pub fn engine_op<V>(kind: Kind, key: String, value: Option<V>) -> (r: Result<WriteOp<V>, ApiError>)
    ensures
        match (kind, value) {
            (Kind::Create, Some(v)) => r matches Ok(WriteOp::Create { key: k, value: x }) && k@ == key@
                && x == v,
            (Kind::Update, Some(v)) => r matches Ok(WriteOp::Update { key: k, value: x }) && k@ == key@
                && x == v,
            (Kind::Delete, _) => r matches Ok(WriteOp::Delete { key: k }) && k@ == key@,
            _ => fails_with(r, ErrorCode::InternalError, "failed to apply writes"@),
        },
{
    match (kind, value) {
        (Kind::Create, Some(value)) => Ok(WriteOp::Create { key, value }),
        (Kind::Update, Some(value)) => Ok(WriteOp::Update { key, value }),
        (Kind::Delete, _) => Ok(WriteOp::Delete { key }),
        _ => Err(ApiError::new(ErrorCode::InternalError, "failed to apply writes")),
    }
}

/// The account's repo state as one query reads it.
#[derive(Debug)]
pub struct RepoWriteState {
    pub active: bool,
    pub repo_root_cid: Option<String>,
}

/// The repo-state preconditions, in order: the account must exist (404), be active (a
/// deactivated account is read-only: 403, even without a repo), have a repo root (404), and match
/// `swapCommit` when the caller sent one (409). On success, the current root CID.
pub fn check_repo_state(state: Option<RepoWriteState>, swap_commit: Option<&str>) -> (r: Result<
    String,
    ApiError,
>)
    ensures
        state is None ==> fails_with(r, ErrorCode::NotFound, "account not found"@),
        state is Some && !state->0.active ==> fails_with(r, ErrorCode::Forbidden, "account is deactivated"@),
        state is Some && state->0.active && state->0.repo_root_cid is None ==> fails_with(
            r,
            ErrorCode::NotFound,
            "account not found"@,
        ),
        state is Some && state->0.active && state->0.repo_root_cid is Some && swap_commit is Some
            && swap_commit->0@ != state->0.repo_root_cid->0@ ==> fails_with(
            r,
            ErrorCode::Conflict,
            "swapCommit does not match current repo commit"@,
        ),
        r is Ok <==> (state is Some && state->0.active && state->0.repo_root_cid is Some && (
        swap_commit is Some ==> swap_commit->0@ == state->0.repo_root_cid->0@)),
        r is Ok ==> r->Ok_0@ == state->0.repo_root_cid->0@,
{
    let s = match state {
        Some(s) => s,
        None => return Err(ApiError::new(ErrorCode::NotFound, "account not found")),
    };
    if !s.active {
        return Err(ApiError::new(ErrorCode::Forbidden, "account is deactivated"));
    }
    let root = match s.repo_root_cid {
        Some(root) => root,
        None => return Err(ApiError::new(ErrorCode::NotFound, "account not found")),
    };
    if let Some(expected) = swap_commit {
        if !str_eq(expected, root.as_str()) {
            return Err(
                ApiError::new(ErrorCode::Conflict, "swapCommit does not match current repo commit"),
            );
        }
    }
    Ok(root)
}

/// How the repo engine refused a batch.
#[derive(Debug)]
pub enum RecordErrorKind {
    AlreadyExists,
    InvalidRecord,
    InvalidPath,
    Other,
}

/// The API error for a refused batch.
pub fn map_engine_error(e: RecordErrorKind) -> (r: ApiError)
    ensures
        e is AlreadyExists ==> r.code == ErrorCode::Conflict && r.message@ == "record already exists"@,
        e is InvalidRecord ==> r.code == ErrorCode::InvalidClaim && r.message@ == "invalid record"@,
        e is InvalidPath ==> r.code == ErrorCode::InvalidClaim && r.message@
            == "invalid collection or record key"@,
        e is Other ==> r.code == ErrorCode::InternalError && r.message@ == "failed to apply writes"@,
{
    match e {
        RecordErrorKind::AlreadyExists => ApiError::new(ErrorCode::Conflict, "record already exists"),
        RecordErrorKind::InvalidRecord => ApiError::new(ErrorCode::InvalidClaim, "invalid record"),
        RecordErrorKind::InvalidPath => ApiError::new(
            ErrorCode::InvalidClaim,
            "invalid collection or record key",
        ),
        RecordErrorKind::Other => ApiError::new(ErrorCode::InternalError, "failed to apply writes"),
    }
}

/// The error for a write whose collection or record key the engine's path rules refuse.
pub fn invalid_path_error() -> (r: ApiError)
    ensures
        r.code == ErrorCode::InvalidClaim && r.message@ == "invalid collection or record key"@,
{
    ApiError::new(ErrorCode::InvalidClaim, "invalid collection or record key")
}

/// The compare-and-swap of the repo root: a lost race (the root moved, or the account was
/// deactivated meanwhile) is a 409 rather than a clobbered commit.
pub fn check_advanced(advanced: bool) -> (r: Result<(), ApiError>)
    ensures
        advanced <==> r is Ok,
        !advanced ==> fails_with(
            r,
            ErrorCode::Conflict,
            "repository was modified concurrently; retry against the current root"@,
        ),
{
    if advanced {
        Ok(())
    } else {
        Err(
            ApiError::new(
                ErrorCode::Conflict,
                "repository was modified concurrently; retry against the current root",
            ),
        )
    }
}

/// What the engine wrote for one operation: its record key and, for creates/updates, the CID.
#[derive(Debug)]
pub struct WriteOutcome {
    pub key: String,
    pub cid: Option<String>,
}

/// One per-write result.
#[derive(Debug)]
pub enum WriteResult {
    Create { uri: String, cid: String, validation_status: &'static str },
    Update { uri: String, cid: String, validation_status: &'static str },
    Delete,
}

/// The commit the batch produced.
#[derive(Debug)]
pub struct CommitMeta {
    pub cid: String,
    pub rev: String,
}

/// The route's answer.
#[derive(Debug)]
pub struct ApplyWritesResponse {
    pub commit: CommitMeta,
    pub results: Vec<WriteResult>,
}

/// The AT-URI of a written record: `at://<did>/<key>`.
pub open spec fn record_uri(did: Seq<char>, key: Seq<char>) -> Seq<char> {
    "at://"@ + did + "/"@ + key
}

/// The CID text of an outcome (empty when none).
pub open spec fn cid_text(cid: Option<String>) -> Seq<char> {
    match cid {
        Some(c) => c@,
        None => Seq::empty(),
    }
}

/// `result` is the result for a write of `kind` with engine outcome `outcome` on repo `did`.
pub open spec fn result_matches(result: WriteResult, kind: Kind, did: Seq<char>, outcome: WriteOutcome) -> bool {
    match kind {
        Kind::Create => result matches WriteResult::Create { uri, cid, validation_status } && uri@
            == record_uri(did, outcome.key@) && cid@ == cid_text(outcome.cid) && validation_status@
            == "unknown"@,
        Kind::Update => result matches WriteResult::Update { uri, cid, validation_status } && uri@
            == record_uri(did, outcome.key@) && cid@ == cid_text(outcome.cid) && validation_status@
            == "unknown"@,
        Kind::Delete => result is Delete,
    }
}

/// `result` is the result variant of a write of `kind`: `#createResult` for a create,
/// `#updateResult` for an update, `#deleteResult` for a delete.
pub open spec fn same_variant(kind: Kind, result: WriteResult) -> bool {
    match kind {
        Kind::Create => result is Create,
        Kind::Update => result is Update,
        Kind::Delete => result is Delete,
    }
}

/// Each write is reported as what it was: a create's result is a `#createResult`, an update's an
/// `#updateResult`, a delete's a `#deleteResult`; and the created or updated record's URI is
/// `at://<did>/<collection>/<rkey>` with the CID the engine gave it.
pub proof fn each_result_has_its_writes_variant(result: WriteResult, kind: Kind, did: Seq<char>, outcome: WriteOutcome)
    ensures
        result_matches(result, kind, did, outcome) ==> same_variant(kind, result),
        result_matches(result, kind, did, outcome) && kind != Kind::Delete ==> match result {
            WriteResult::Create { uri, cid, .. } => uri@ == "at://"@ + did + "/"@ + outcome.key@ && cid@
                == cid_text(outcome.cid),
            WriteResult::Update { uri, cid, .. } => uri@ == "at://"@ + did + "/"@ + outcome.key@ && cid@
                == cid_text(outcome.cid),
            WriteResult::Delete => false,
        },
{
}

/// The per-write results in batch order: write `i`'s variant paired with engine outcome `i`. The
/// engine reports one outcome per operation, so the two lists have one length.
pub fn write_results(did: &str, kinds: &[Kind], outcomes: &[WriteOutcome]) -> (r: Vec<WriteResult>)
    requires
        kinds@.len() == outcomes@.len(),
    ensures
        r@.len() == kinds@.len(),
        forall|i: int|
            0 <= i < kinds@.len() ==> result_matches(#[trigger] r@[i], kinds@[i], did@, outcomes@[i]),
        forall|i: int| 0 <= i < kinds@.len() ==> same_variant(kinds@[i], #[trigger] r@[i]),
{
    proof {
        assert forall|res: WriteResult, k: Kind, o: WriteOutcome|
            #[trigger] result_matches(res, k, did@, o) implies same_variant(k, res) by {
            each_result_has_its_writes_variant(res, k, did@, o);
        }
    }
    let mut results: Vec<WriteResult> = Vec::new();
    let mut i: usize = 0;
    while i < kinds.len()
        invariant
            kinds@.len() == outcomes@.len(),
            i <= kinds@.len(),
            results@.len() == i,
            forall|j: int|
                0 <= j < i ==> result_matches(#[trigger] results@[j], kinds@[j], did@, outcomes@[j]),
        decreases kinds@.len() - i,
    {
        let outcome = &outcomes[i];
        let mut uri = owned("at://");
        uri.append(did);
        uri.append("/");
        uri.append(outcome.key.as_str());
        let cid = match &outcome.cid {
            Some(c) => c.clone(),
            None => String::new(),
        };
        let result = match kinds[i] {
            Kind::Create => WriteResult::Create { uri, cid, validation_status: "unknown" },
            Kind::Update => WriteResult::Update { uri, cid, validation_status: "unknown" },
            Kind::Delete => WriteResult::Delete,
        };
        results.push(result);
        i = i + 1;
    }
    results
}


/// The action a `#commit` repo op announces.
#[derive(Clone, Copy, Debug, PartialEq, Eq, Structural)]
pub enum OpAction {
    Create,
    Update,
    Delete,
}

/// The action announcing a write of `kind`.
pub open spec fn action_of(kind: Kind) -> OpAction {
    match kind {
        Kind::Create => OpAction::Create,
        Kind::Update => OpAction::Update,
        Kind::Delete => OpAction::Delete,
    }
}

/// One `#repoOp` of the batch's `#commit` firehose event: what was done to which record, the CID
/// it now has (none for a delete), and the record value a create or update wrote.
#[derive(Debug)]
pub struct RepoOp<V> {
    pub action: OpAction,
    pub collection: String,
    pub rkey: String,
    pub cid: Option<String>,
    pub value: Option<V>,
}

/// The collection and record key a written key `collection/rkey` names: the text before and after
/// its first `/` (a key without one names no record key).
pub open spec fn key_parts(key: Seq<char>) -> (Seq<char>, Seq<char>) {
    match split_once_spec(key, '/') {
        Some(parts) => parts,
        None => (key, Seq::empty()),
    }
}

/// The text an optional `String` holds.
pub open spec fn cid_of(cid: Option<String>) -> Option<Seq<char>> {
    match cid {
        Some(c) => Some(c@),
        None => None,
    }
}

/// `op` is the `#repoOp` for a write of `kind` whose engine outcome is `outcome` and whose
/// retained record value is `value`.
pub open spec fn op_matches<V>(op: RepoOp<V>, kind: Kind, outcome: WriteOutcome, value: Option<V>) -> bool {
    &&& op.action == action_of(kind)
    &&& op.collection@ == key_parts(outcome.key@).0
    &&& op.rkey@ == key_parts(outcome.key@).1
    &&& cid_of(op.cid) == cid_of(outcome.cid)
    &&& op.value == value
}

/// The ops of the batch's single `#commit` event, in batch order: write `i`'s kind, engine outcome
/// `i` (its key split into collection and record key, its CID) and the value write `i` carried.
/// The engine reports one outcome per operation and one value is retained per write, so the three
/// lists have one length.
pub fn commit_ops<V>(kinds: &[Kind], outcomes: &[WriteOutcome], values: Vec<Option<V>>) -> (r: Vec<RepoOp<V>>)
    requires
        kinds@.len() == outcomes@.len(),
        values@.len() == kinds@.len(),
    ensures
        r@.len() == kinds@.len(),
        forall|i: int|
            0 <= i < kinds@.len() ==> op_matches(#[trigger] r@[i], kinds@[i], outcomes@[i], values@[i]),
{
    let ghost all_values = values@;
    let mut rest = values;
    let mut ops: Vec<RepoOp<V>> = Vec::new();
    let mut i: usize = 0;
    while i < kinds.len()
        invariant
            kinds@.len() == outcomes@.len(),
            all_values.len() == kinds@.len(),
            i <= kinds@.len(),
            ops@.len() == i,
            rest@ == all_values.skip(i as int),
            forall|j: int|
                0 <= j < i ==> op_matches(#[trigger] ops@[j], kinds@[j], outcomes@[j], all_values[j]),
        decreases kinds@.len() - i,
    {
        let outcome = &outcomes[i];
        let (collection, rkey) = match split_once_char(outcome.key.as_str(), '/') {
            Some(parts) => parts,
            None => (outcome.key.clone(), String::new()),
        };
        let cid = match &outcome.cid {
            Some(c) => Some(c.clone()),
            None => None,
        };
        let action = match kinds[i] {
            Kind::Create => OpAction::Create,
            Kind::Update => OpAction::Update,
            Kind::Delete => OpAction::Delete,
        };
        let value = rest.remove(0);
        proof {
            assert(value == all_values[i as int]);
            assert(rest@ =~= all_values.skip(i + 1));
        }
        ops.push(RepoOp { action, collection, rkey, cid, value });
        i = i + 1;
    }
    ops
}


/// The stages of `applyWrites`, in order.
#[derive(Clone, Copy, Debug, PartialEq, Eq, Structural)]
pub enum ApplyWritesStage {
    /// The DID's format, the caller's access token owning the repo, and the batch size.
    CheckRequest,
    /// Resolve every write to its record key and engine operation, rejecting the whole batch on one bad path before anything changes.
    ResolveWrites,
    /// The account must exist and be active, have a repo, and match any `swapCommit`.
    LoadRepoState,
    OpenRepo,
    /// The account's repo signing key.
    LoadSigner,
    /// Apply every write in memory; an error leaves the root where it was.
    ApplyBatch,
    /// Move the persisted root only if nobody else moved it (a lost race is a 409).
    AdvanceRoot,
    /// One firehose `#commit` for the batch; then a best-effort garbage collection.
    EmitCommit,
}

impl Stage for ApplyWritesStage {
    open spec fn successor(self) -> Option<ApplyWritesStage> {
        match self {
            ApplyWritesStage::CheckRequest => Some(ApplyWritesStage::ResolveWrites),
            ApplyWritesStage::ResolveWrites => Some(ApplyWritesStage::LoadRepoState),
            ApplyWritesStage::LoadRepoState => Some(ApplyWritesStage::OpenRepo),
            ApplyWritesStage::OpenRepo => Some(ApplyWritesStage::LoadSigner),
            ApplyWritesStage::LoadSigner => Some(ApplyWritesStage::ApplyBatch),
            ApplyWritesStage::ApplyBatch => Some(ApplyWritesStage::AdvanceRoot),
            ApplyWritesStage::AdvanceRoot => Some(ApplyWritesStage::EmitCommit),
            ApplyWritesStage::EmitCommit => None,
        }
    }

    fn following(&self) -> (r: Option<ApplyWritesStage>) {
        match self {
            ApplyWritesStage::CheckRequest => Some(ApplyWritesStage::ResolveWrites),
            ApplyWritesStage::ResolveWrites => Some(ApplyWritesStage::LoadRepoState),
            ApplyWritesStage::LoadRepoState => Some(ApplyWritesStage::OpenRepo),
            ApplyWritesStage::OpenRepo => Some(ApplyWritesStage::LoadSigner),
            ApplyWritesStage::LoadSigner => Some(ApplyWritesStage::ApplyBatch),
            ApplyWritesStage::ApplyBatch => Some(ApplyWritesStage::AdvanceRoot),
            ApplyWritesStage::AdvanceRoot => Some(ApplyWritesStage::EmitCommit),
            ApplyWritesStage::EmitCommit => None,
        }
    }
}

} // verus!
