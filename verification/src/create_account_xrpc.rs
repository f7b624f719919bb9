//! `POST /xrpc/com.atproto.server.createAccount` — onboarding and migration. The presence of
//! `did` selects the mode: without it a new account is made from a client-signed did:plc
//! genesis operation; with it an existing identity migrates in, authenticated by a service-auth
//! token its current PDS minted, and lands deactivated with no repo yet.
//!
//! The route is a chain of stages that each may stop it with an error. The decisions each stage
//! takes on what it read, and the order of the stages, are the functions below.

use vstd::prelude::*;
use crate::boundary::{json_member_strings, json_member_strings_of, opt_text, system_unix_time};
use crate::error::{ApiError, ErrorCode, fails_with, is_api_error};
use crate::flow::Stage;
use crate::text::{owned, strip_prefix, trim, trim_spec};

verus! {

/// The lexicon method a migration service-auth token must authorize (when it names one).
pub const CREATE_ACCOUNT_LXM: &'static str = "com.atproto.server.createAccount";

/// The request body. `plc_op` is the JSON text of the self-signed genesis operation.
#[derive(Debug)]
pub struct CreateAccountRequest {
    pub handle: String,
    pub email: Option<String>,
    pub password: Option<String>,
    pub did: Option<String>,
    pub plc_op: Option<String>,
    pub invite_code: Option<String>,
    pub recovery_key: Option<String>,
    pub verification_code: Option<String>,
    pub verification_phone: Option<String>,
}

/// The answer: a fresh session for the account. `did_doc` is the JSON text of its DID document.
#[derive(Debug)]
pub struct CreateAccountResponse {
    pub access_jwt: String,
    pub refresh_jwt: String,
    pub handle: String,
    pub did: String,
    pub did_doc: Option<String>,
}

/// Which of the two flows a request runs.
#[derive(Debug)]
pub enum AccountMode {
    New,
    Migration(String),
}

/// `did`, trimmed, when it is there and not blank: that selects migration of that DID.
pub fn account_mode(did: Option<&str>) -> (m: AccountMode)
    ensures
        match did {
            None => m is New,
            Some(d) => if trim_spec(d@).len() == 0 {
                m is New
            } else {
                m matches AccountMode::Migration(x) && x@ == trim_spec(d@)
            },
        },
{
    match did {
        None => AccountMode::New,
        Some(d) => {
            let t = trim(d);
            if t.as_str().is_empty() {
                AccountMode::New
            } else {
                AccountMode::Migration(t)
            }
        },
    }
}

/// A non-blank email, trimmed (`accounts.email` is NOT NULL).
pub fn require_email(email: Option<&str>) -> (r: Result<String, ApiError>)
    ensures
        match email {
            Some(e) if trim_spec(e@).len() > 0 => r matches Ok(v) && v@ == trim_spec(e@),
            _ => fails_with(r, ErrorCode::InvalidClaim, "email is required"@),
        },
{
    match email {
        Some(e) => {
            let t = trim(e);
            if t.as_str().is_empty() {
                Err(ApiError::new(ErrorCode::InvalidClaim, "email is required"))
            } else {
                Ok(t)
            }
        },
        None => Err(ApiError::new(ErrorCode::InvalidClaim, "email is required")),
    }
}

/// A new account needs a non-empty password (taken as given, untrimmed).
pub fn require_password(password: Option<&str>) -> (r: Result<String, ApiError>)
    ensures
        match password {
            Some(p) if p@.len() > 0 => r matches Ok(v) && v@ == p@,
            _ => fails_with(r, ErrorCode::InvalidClaim, "password must not be empty"@),
        },
{
    match password {
        Some(p) => if p.is_empty() {
            Err(ApiError::new(ErrorCode::InvalidClaim, "password must not be empty"))
        } else {
            Ok(owned(p))
        },
        None => Err(ApiError::new(ErrorCode::InvalidClaim, "password must not be empty")),
    }
}

/// A migrating account may have no password (OAuth-only): an empty one counts as none.
pub fn migration_password(password: Option<&str>) -> (r: Option<String>)
    ensures
        match password {
            Some(p) if p@.len() > 0 => r matches Some(v) && v@ == p@,
            _ => r is None,
        },
{
    match password {
        Some(p) => if p.is_empty() {
            None
        } else {
            Some(owned(p))
        },
        None => None,
    }
}

/// The message for a new-account request without a genesis operation.
pub open spec fn plc_op_required_message() -> Seq<char> {
    "plcOp is required: this server does not create server-custodied identities; supply a self-signed did:plc genesis operation (or migrate an existing DID)"@
}

/// The key the genesis operation is self-signed with: the first of its rotation keys, when that
/// is a string.
pub open spec fn first_rotation_key(keys: Option<Seq<Option<Seq<char>>>>) -> Option<Seq<char>> {
    match keys {
        Some(ks) => if ks.len() > 0 {
            ks[0]
        } else {
            None
        },
        None => None,
    }
}

/// The key the genesis operation is self-signed with: `rotationKeys[0]` of `plcOp`.
pub fn genesis_rotation_key(plc_op: Option<&str>) -> (r: Result<String, ApiError>)
    ensures
        match plc_op {
            None => fails_with(r, ErrorCode::InvalidClaim, plc_op_required_message()),
            Some(op) => match first_rotation_key(json_member_strings_of(op@, "rotationKeys"@)) {
                Some(k) => r matches Ok(v) && v@ == k,
                None => fails_with(
                    r,
                    ErrorCode::InvalidClaim,
                    "plcOp.rotationKeys[0] is missing or not a string"@,
                ),
            },
        },
{
    match plc_op {
        None => Err(
            ApiError::new(
                ErrorCode::InvalidClaim,
                "plcOp is required: this server does not create server-custodied identities; supply a self-signed did:plc genesis operation (or migrate an existing DID)",
            ),
        ),
        Some(op) => {
            let keys = json_member_strings(op, "rotationKeys");
            match rotation_key_from(keys) {
                Some(k) => Ok(k),
                None => Err(
                    ApiError::new(ErrorCode::InvalidClaim, "plcOp.rotationKeys[0] is missing or not a string"),
                ),
            }
        },
    }
}

/// The first rotation key of the member's elements, when it is a string.
fn rotation_key_from(keys: Option<Vec<Option<String>>>) -> (r: Option<String>)
    ensures
        opt_text(r) == first_rotation_key(
            match keys {
                Some(v) => Some(v@.map_values(|e: Option<String>| opt_text(e))),
                None => None,
            },
        ),
{
    match keys {
        None => None,
        Some(v) => {
            if v.len() == 0 {
                None
            } else {
                let first = v[0].clone();
                proof {
                    assert(first == v@[0]);
                }
                first
            }
        },
    }
}

/// The id of the per-account signing key the genesis operation publishes
/// (`verificationMethods.atproto`), which must be present.
pub fn published_signing_key(atproto: Option<&str>) -> (r: Result<String, ApiError>)
    ensures
        match atproto {
            Some(k) => r matches Ok(v) && v@ == k@,
            None => fails_with(r, ErrorCode::InvalidClaim, "op verificationMethods.atproto is missing"@),
        },
{
    match atproto {
        Some(k) => Ok(owned(k)),
        None => Err(ApiError::new(ErrorCode::InvalidClaim, "op verificationMethods.atproto is missing")),
    }
}

/// What the lookup of a reserved signing key is answered with when it found nothing, by mode.
pub open spec fn unreserved_key_message(migration: bool) -> Seq<char> {
    if migration {
        "no reserved signing key for this DID; call reserveSigningKey first"@
    } else {
        "op verificationMethods.atproto does not match a reserved signing key; call reserveSigningKey first"@
    }
}

/// The reserved signing key the account will sign with: a failed lookup is a server error, a
/// missing key a client one (the key must be reserved first).
pub fn reserved_signing_key<K>(migration: bool, lookup: Result<Option<K>, ()>) -> (r: Result<K, ApiError>)
    ensures
        match lookup {
            Err(_) => fails_with(r, ErrorCode::InternalError, "failed to load signing key"@),
            Ok(None) => fails_with(r, ErrorCode::InvalidClaim, unreserved_key_message(migration)),
            Ok(Some(k)) => r == Ok::<K, ApiError>(k),
        },
{
    match lookup {
        Err(_) => Err(ApiError::new(ErrorCode::InternalError, "failed to load signing key")),
        Ok(None) => if migration {
            Err(
                ApiError::new(
                    ErrorCode::InvalidClaim,
                    "no reserved signing key for this DID; call reserveSigningKey first",
                ),
            )
        } else {
            Err(
                ApiError::new(
                    ErrorCode::InvalidClaim,
                    "op verificationMethods.atproto does not match a reserved signing key; call reserveSigningKey first",
                ),
            )
        },
        Ok(Some(k)) => Ok(k),
    }
}

/// The uniqueness pre-flight on the email: a failed query is a server error, a taken email
/// `AccountExists`.
pub fn email_free(taken: Result<bool, ()>) -> (r: Result<(), ApiError>)
    ensures
        match taken {
            Err(_) => fails_with(r, ErrorCode::InternalError, "failed to create account"@),
            Ok(true) => fails_with(r, ErrorCode::AccountExists, "an account with this email already exists"@),
            Ok(false) => r is Ok,
        },
{
    match taken {
        Err(_) => Err(ApiError::new(ErrorCode::InternalError, "failed to create account")),
        Ok(true) => Err(ApiError::new(ErrorCode::AccountExists, "an account with this email already exists")),
        Ok(false) => Ok(()),
    }
}

/// The uniqueness pre-flight on the handle: a failed query is a server error, a taken handle
/// `HandleTaken`.
pub fn handle_free(taken: Result<bool, ()>) -> (r: Result<(), ApiError>)
    ensures
        match taken {
            Err(_) => fails_with(r, ErrorCode::InternalError, "failed to create account"@),
            Ok(true) => fails_with(r, ErrorCode::HandleTaken, "this handle is already claimed"@),
            Ok(false) => r is Ok,
        },
{
    match taken {
        Err(_) => Err(ApiError::new(ErrorCode::InternalError, "failed to create account")),
        Ok(true) => Err(ApiError::new(ErrorCode::HandleTaken, "this handle is already claimed")),
        Ok(false) => Ok(()),
    }
}

/// The invite code a request must spend. When invites are not required there is none to spend;
/// when they are, a trimmed non-blank code must be given.
pub fn invite_code_to_spend(required: bool, code: Option<&str>) -> (r: Result<Option<String>, ApiError>)
    ensures
        !required ==> r == Ok::<Option<String>, ApiError>(None),
        required ==> match code {
            Some(c) if trim_spec(c@).len() > 0 => r matches Ok(Some(v)) && v@ == trim_spec(c@),
            _ => fails_with(r, ErrorCode::InvalidRequest, "an invite code is required"@),
        },
{
    if !required {
        return Ok(None);
    }
    match code {
        Some(c) => {
            let t = trim(c);
            if t.as_str().is_empty() {
                Err(ApiError::new(ErrorCode::InvalidRequest, "an invite code is required"))
            } else {
                Ok(Some(t))
            }
        },
        None => Err(ApiError::new(ErrorCode::InvalidRequest, "an invite code is required")),
    }
}

/// The pre-flight check of an invite code (nothing is spent yet).
pub fn invite_precheck(valid: bool) -> (r: Result<(), ApiError>)
    ensures
        valid ==> r is Ok,
        !valid ==> fails_with(r, ErrorCode::InvalidRequest, "invalid or expired invite code"@),
{
    if valid {
        Ok(())
    } else {
        Err(ApiError::new(ErrorCode::InvalidRequest, "invalid or expired invite code"))
    }
}

/// Spending the code inside the transaction: the guarded `UPDATE` changed `rows` rows. None means
/// the code was invalid, expired or already spent.
pub fn invite_redeemed(rows: Result<u64, ()>) -> (r: Result<(), ApiError>)
    ensures
        match rows {
            Err(_) => fails_with(r, ErrorCode::InternalError, "failed to redeem invite code"@),
            Ok(n) => if n == 0 {
                fails_with(r, ErrorCode::InvalidRequest, "invalid or expired invite code"@)
            } else {
                r is Ok
            },
        },
{
    match rows {
        Err(_) => Err(ApiError::new(ErrorCode::InternalError, "failed to redeem invite code")),
        Ok(n) => if n == 0 {
            Err(ApiError::new(ErrorCode::InvalidRequest, "invalid or expired invite code"))
        } else {
            Ok(())
        },
    }
}

/// The DID must not already be a fully provisioned account.
pub fn did_not_promoted(exists: bool) -> (r: Result<(), ApiError>)
    ensures
        !exists ==> r is Ok,
        exists ==> fails_with(r, ErrorCode::DidAlreadyExists, "an account for this DID already exists"@),
{
    if exists {
        Err(ApiError::new(ErrorCode::DidAlreadyExists, "an account for this DID already exists"))
    } else {
        Ok(())
    }
}

/// Building the genesis repo needs the signing-key master key in the configuration.
pub fn master_key_configured(present: bool) -> (r: Result<(), ApiError>)
    ensures
        present ==> r is Ok,
        !present ==> fails_with(r, ErrorCode::ServiceUnavailable, "signing key master key not configured"@),
{
    if present {
        Ok(())
    } else {
        Err(ApiError::new(ErrorCode::ServiceUnavailable, "signing key master key not configured"))
    }
}

/// The answer to a failed `INSERT INTO accounts`: a uniqueness violation means the DID exists.
pub fn account_insert_error(unique_violation: bool) -> (e: ApiError)
    ensures
        unique_violation ==> is_api_error(e, ErrorCode::DidAlreadyExists, "account already exists"@),
        !unique_violation ==> is_api_error(e, ErrorCode::InternalError, "failed to create account"@),
{
    if unique_violation {
        ApiError::new(ErrorCode::DidAlreadyExists, "account already exists")
    } else {
        ApiError::new(ErrorCode::InternalError, "failed to create account")
    }
}

/// The answer to a failed `INSERT INTO handles`: a uniqueness violation means the handle is taken.
pub fn handle_insert_error(unique_violation: bool) -> (e: ApiError)
    ensures
        unique_violation ==> is_api_error(e, ErrorCode::HandleTaken, "this handle is already claimed"@),
        !unique_violation ==> is_api_error(e, ErrorCode::InternalError, "failed to bind handle"@),
{
    if unique_violation {
        ApiError::new(ErrorCode::HandleTaken, "this handle is already claimed")
    } else {
        ApiError::new(ErrorCode::InternalError, "failed to bind handle")
    }
}

/// The token of an `Authorization: Bearer <token>` header value, trimmed; `None` when the value
/// does not start with `Bearer ` or the token is blank.
pub fn bearer_token(authorization: Option<&str>) -> (r: Option<String>)
    ensures
        match authorization {
            None => r is None,
            Some(h) => if "Bearer "@.is_prefix_of(h@) && trim_spec(h@.skip(7)).len() > 0 {
                r matches Some(t) && t@ == trim_spec(h@.skip(7))
            } else {
                r is None
            },
        },
{
    proof {
        reveal_strlit("Bearer ");
    }
    match authorization {
        None => None,
        Some(h) => match strip_prefix(h, "Bearer ") {
            None => None,
            Some(rest) => {
                let t = trim(rest.as_str());
                if t.as_str().is_empty() {
                    None
                } else {
                    Some(t)
                }
            },
        },
    }
}

/// The answer for a clock reading: its whole seconds since the Unix epoch, or a server error for a
/// clock that reads before the epoch (`None`).
pub fn clock_secs(reading: Option<u64>) -> (r: Result<u64, ApiError>)
    ensures
        reading matches Some(s) ==> r == Ok::<u64, ApiError>(s),
        reading is None ==> fails_with(r, ErrorCode::InternalError, "system clock error"@),
{
    match reading {
        Some(s) => Ok(s),
        None => Err(ApiError::new(ErrorCode::InternalError, "system clock error")),
    }
}

/// Whole seconds since the Unix epoch; a clock that reads before the epoch is a server error.
/// The clock decides which: see [`clock_secs`] for the answer to each reading.
pub fn unix_now() -> (r: Result<u64, ApiError>)
    ensures
        r is Err ==> fails_with(r, ErrorCode::InternalError, "system clock error"@),
{
    match system_unix_time() {
        Some(t) => clock_secs(Some(t.0)),
        None => clock_secs(None),
    }
}

/// The audience of the session tokens: the server's DID when configured, else its public URL.
pub fn session_audience(server_did: Option<&str>, public_url: &str) -> (r: String)
    ensures
        match server_did {
            Some(d) => r@ == d@,
            None => r@ == public_url@,
        },
{
    match server_did {
        Some(d) => owned(d),
        None => owned(public_url),
    }
}

/// The stages of new-account creation, in the order the route runs them.
#[derive(Clone, Copy, Debug, PartialEq, Eq, Structural)]
pub enum NewAccountStage {
    /// Email, password, the handle on a served domain, `plcOp` and its rotation key.
    CheckRequest,
    /// Verify the genesis operation's signature and content; learn the DID.
    VerifyGenesisOp,
    /// The published signing key must be one this server reserved.
    LoadSigningKey,
    /// Email and handle uniqueness pre-flight.
    CheckEmailAndHandle,
    /// Invite-code pre-flight.
    PrecheckInvite,
    /// Build the empty genesis repo signed with the reserved key.
    BuildGenesisRepo,
    /// The DID must not already be an account.
    CheckDidFree,
    /// Register the operation with plc.directory.
    SubmitPlcOp,
    /// Build the DID document and hash the password.
    PrepareAccount,
    /// The promotion transaction (see [`Promotion`]).
    Promote,
}

impl Stage for NewAccountStage {
    open spec fn successor(self) -> Option<NewAccountStage> {
        match self {
            NewAccountStage::CheckRequest => Some(NewAccountStage::VerifyGenesisOp),
            NewAccountStage::VerifyGenesisOp => Some(NewAccountStage::LoadSigningKey),
            NewAccountStage::LoadSigningKey => Some(NewAccountStage::CheckEmailAndHandle),
            NewAccountStage::CheckEmailAndHandle => Some(NewAccountStage::PrecheckInvite),
            NewAccountStage::PrecheckInvite => Some(NewAccountStage::BuildGenesisRepo),
            NewAccountStage::BuildGenesisRepo => Some(NewAccountStage::CheckDidFree),
            NewAccountStage::CheckDidFree => Some(NewAccountStage::SubmitPlcOp),
            NewAccountStage::SubmitPlcOp => Some(NewAccountStage::PrepareAccount),
            NewAccountStage::PrepareAccount => Some(NewAccountStage::Promote),
            NewAccountStage::Promote => None,
        }
    }

    fn following(&self) -> (r: Option<NewAccountStage>) {
        match self {
            NewAccountStage::CheckRequest => Some(NewAccountStage::VerifyGenesisOp),
            NewAccountStage::VerifyGenesisOp => Some(NewAccountStage::LoadSigningKey),
            NewAccountStage::LoadSigningKey => Some(NewAccountStage::CheckEmailAndHandle),
            NewAccountStage::CheckEmailAndHandle => Some(NewAccountStage::PrecheckInvite),
            NewAccountStage::PrecheckInvite => Some(NewAccountStage::BuildGenesisRepo),
            NewAccountStage::BuildGenesisRepo => Some(NewAccountStage::CheckDidFree),
            NewAccountStage::CheckDidFree => Some(NewAccountStage::SubmitPlcOp),
            NewAccountStage::SubmitPlcOp => Some(NewAccountStage::PrepareAccount),
            NewAccountStage::PrepareAccount => Some(NewAccountStage::Promote),
            NewAccountStage::Promote => None,
        }
    }
}

/// The steps of the account transaction.
#[derive(Clone, Copy, Debug, PartialEq, Eq, Structural)]
pub enum PromotionStep {
    OpenTransaction,
    /// Spend the invite first: a bad code rolls everything back before any work.
    RedeemInvite,
    InsertAccount,
    InsertDidDocument,
    InsertHandle,
    StoreSigningKey,
    /// New accounts only: the genesis blocks.
    StoreBlocks,
    /// New accounts only: stage the genesis `#commit` and `#sync` firehose events.
    StageFirehose,
    IssueSession,
    Commit,
}

/// A step of the account transaction of a new account or (without the repo steps: a migrating
/// account has no repo until `importRepo`) of a migration.
#[derive(Clone, Copy, Debug, PartialEq, Eq, Structural)]
pub struct Promotion {
    pub migration: bool,
    pub step: PromotionStep,
}

impl Stage for Promotion {
    open spec fn successor(self) -> Option<Promotion> {
        let m = self.migration;
        match self.step {
            PromotionStep::OpenTransaction => Some(Promotion { migration: m, step: PromotionStep::RedeemInvite }),
            PromotionStep::RedeemInvite => Some(Promotion { migration: m, step: PromotionStep::InsertAccount }),
            PromotionStep::InsertAccount => Some(Promotion { migration: m, step: PromotionStep::InsertDidDocument }),
            PromotionStep::InsertDidDocument => Some(Promotion { migration: m, step: PromotionStep::InsertHandle }),
            PromotionStep::InsertHandle => Some(Promotion { migration: m, step: PromotionStep::StoreSigningKey }),
            PromotionStep::StoreSigningKey => if m {
                Some(Promotion { migration: m, step: PromotionStep::IssueSession })
            } else {
                Some(Promotion { migration: m, step: PromotionStep::StoreBlocks })
            },
            PromotionStep::StoreBlocks => Some(Promotion { migration: m, step: PromotionStep::StageFirehose }),
            PromotionStep::StageFirehose => Some(Promotion { migration: m, step: PromotionStep::IssueSession }),
            PromotionStep::IssueSession => Some(Promotion { migration: m, step: PromotionStep::Commit }),
            PromotionStep::Commit => None,
        }
    }

    fn following(&self) -> (r: Option<Promotion>) {
        let m = self.migration;
        let step = match self.step {
            PromotionStep::OpenTransaction => PromotionStep::RedeemInvite,
            PromotionStep::RedeemInvite => PromotionStep::InsertAccount,
            PromotionStep::InsertAccount => PromotionStep::InsertDidDocument,
            PromotionStep::InsertDidDocument => PromotionStep::InsertHandle,
            PromotionStep::InsertHandle => PromotionStep::StoreSigningKey,
            PromotionStep::StoreSigningKey => if m {
                PromotionStep::IssueSession
            } else {
                PromotionStep::StoreBlocks
            },
            PromotionStep::StoreBlocks => PromotionStep::StageFirehose,
            PromotionStep::StageFirehose => PromotionStep::IssueSession,
            PromotionStep::IssueSession => PromotionStep::Commit,
            PromotionStep::Commit => {
                return None;
            },
        };
        Some(Promotion { migration: m, step })
    }
}

/// The stages of a migration, in the order the route runs them.
#[derive(Clone, Copy, Debug, PartialEq, Eq, Structural)]
pub enum MigrationStage {
    /// A bearer service-auth token must be present.
    RequireToken,
    /// Resolve the DID document and its `#atproto` key.
    ResolveDid,
    /// Verify the token against that key, this server as audience, and the createAccount method.
    VerifyServiceAuth,
    /// The handle must be structurally valid; the email present.
    CheckRequest,
    /// A signing key must be reserved for this DID.
    LoadSigningKey,
    CheckEmailAndHandle,
    PrecheckInvite,
    /// Serialize the DID document and hash any password.
    PrepareAccount,
    /// The transaction (see [`Promotion`]).
    Promote,
}

impl Stage for MigrationStage {
    open spec fn successor(self) -> Option<MigrationStage> {
        match self {
            MigrationStage::RequireToken => Some(MigrationStage::ResolveDid),
            MigrationStage::ResolveDid => Some(MigrationStage::VerifyServiceAuth),
            MigrationStage::VerifyServiceAuth => Some(MigrationStage::CheckRequest),
            MigrationStage::CheckRequest => Some(MigrationStage::LoadSigningKey),
            MigrationStage::LoadSigningKey => Some(MigrationStage::CheckEmailAndHandle),
            MigrationStage::CheckEmailAndHandle => Some(MigrationStage::PrecheckInvite),
            MigrationStage::PrecheckInvite => Some(MigrationStage::PrepareAccount),
            MigrationStage::PrepareAccount => Some(MigrationStage::Promote),
            MigrationStage::Promote => None,
        }
    }

    fn following(&self) -> (r: Option<MigrationStage>) {
        match self {
            MigrationStage::RequireToken => Some(MigrationStage::ResolveDid),
            MigrationStage::ResolveDid => Some(MigrationStage::VerifyServiceAuth),
            MigrationStage::VerifyServiceAuth => Some(MigrationStage::CheckRequest),
            MigrationStage::CheckRequest => Some(MigrationStage::LoadSigningKey),
            MigrationStage::LoadSigningKey => Some(MigrationStage::CheckEmailAndHandle),
            MigrationStage::CheckEmailAndHandle => Some(MigrationStage::PrecheckInvite),
            MigrationStage::PrecheckInvite => Some(MigrationStage::PrepareAccount),
            MigrationStage::PrepareAccount => Some(MigrationStage::Promote),
            MigrationStage::Promote => None,
        }
    }
}

/// A migration without a bearer token is refused before anything is resolved.
pub fn migration_token(authorization: Option<&str>) -> (r: Result<String, ApiError>)
    ensures
        match bearer_token_spec(authorization) {
            Some(t) => r matches Ok(v) && v@ == t,
            None => fails_with(
                r,
                ErrorCode::AuthenticationRequired,
                "migration requires a service-auth token from the current PDS"@,
            ),
        },
{
    match bearer_token(authorization) {
        Some(t) => Ok(t),
        None => Err(
            ApiError::new(
                ErrorCode::AuthenticationRequired,
                "migration requires a service-auth token from the current PDS",
            ),
        ),
    }
}

/// The token [`bearer_token`] finds in a header value.
pub open spec fn bearer_token_spec(authorization: Option<&str>) -> Option<Seq<char>> {
    match authorization {
        None => None,
        Some(h) => if "Bearer "@.is_prefix_of(h@) && trim_spec(h@.skip(7)).len() > 0 {
            Some(trim_spec(h@.skip(7)))
        } else {
            None
        },
    }
}

/// The migrating DID's document must carry an `#atproto` verification key.
pub fn atproto_key_present(key: Option<&str>) -> (r: Result<String, ApiError>)
    ensures
        match key {
            Some(k) => r matches Ok(v) && v@ == k@,
            None => fails_with(r, ErrorCode::InvalidRequest, "the DID document has no #atproto verification method"@),
        },
{
    match key {
        Some(k) => Ok(owned(k)),
        None => Err(
            ApiError::new(ErrorCode::InvalidRequest, "the DID document has no #atproto verification method"),
        ),
    }
}

/// The answer once the account exists: its session, handle, DID and DID document.
pub fn account_response(
    access_jwt: String,
    refresh_jwt: String,
    handle: &str,
    did: &str,
    did_doc: String,
) -> (r: CreateAccountResponse)
    ensures
        r.access_jwt@ == access_jwt@,
        r.refresh_jwt@ == refresh_jwt@,
        r.handle@ == handle@,
        r.did@ == did@,
        r.did_doc matches Some(d) && d@ == did_doc@,
{
    CreateAccountResponse {
        access_jwt,
        refresh_jwt,
        handle: owned(handle),
        did: owned(did),
        did_doc: Some(did_doc),
    }
}


/// A migration's transaction never stores repo blocks nor stages repo firehose events (its repo
/// arrives later), and every step keeps the mode it started in.
pub proof fn migration_skips_the_repo_steps(p: Promotion)
    requires
        p.migration,
        p.step != PromotionStep::StoreBlocks,
        p.step != PromotionStep::StageFirehose,
    ensures
        p.successor() matches Some(q) ==> q.migration && q.step != PromotionStep::StoreBlocks && q.step
            != PromotionStep::StageFirehose,
{
}

} // verus!
