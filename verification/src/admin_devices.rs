//! Pairing bootstrap for the operator companion app. The master token mints a single-use,
//! short-lived pairing code; a phone then registers its P-256 key by presenting the code and a
//! self-signature, which consumes the code atomically with the device insert. Every
//! registration auth failure is the same generic 401.

use vstd::prelude::*;
use crate::boundary::{
    base64url_encode, base64url_text, is_base64url_char, random_bytes, uuid_hex, uuid_hyphenated,
    uuid_v4_bytes,
};
use crate::ids::{lemma_base64url_text_shape, lemma_uuid_hyphenated_shape, random_16};
use crate::claim_codes::{InsertOutcome, MintStep};
use crate::error::{ApiError, ErrorCode, fails_with, is_api_error};
use crate::flow::Stage;
use crate::text::{chars_of, push_char, trim, trim_spec};

verus! {

/// Default pairing-code lifetime in minutes: long enough to scan a QR.
pub const DEFAULT_PAIRING_TTL_MINUTES: i64 = 5;

/// Upper bound on a caller-chosen lifetime: a pairing code is a bearer secret.
pub const MAX_PAIRING_TTL_MINUTES: i64 = 60;

/// How many codes are drawn before a run of collisions gives up.
pub const PAIRING_ATTEMPTS: usize = 3;

/// The lifetime a request without `expiresInMinutes` gets.
pub fn default_ttl_minutes() -> (m: i64)
    ensures
        m == 5,
{
    DEFAULT_PAIRING_TTL_MINUTES
}

/// `POST /v1/admin/pairing-codes` body.
#[derive(Debug)]
pub struct PairingCodeRequest {
    pub expires_in_minutes: i64,
}

/// A minted code and its RFC 3339 UTC expiry.
#[derive(Debug)]
pub struct PairingCodeResponse {
    pub pairing_code: String,
    pub expires_at: String,
}

/// The requested lifetime must be 1 to 60 minutes.
pub fn check_ttl(minutes: i64) -> (r: Result<(), ApiError>)
    ensures
        1 <= minutes <= 60 ==> r is Ok,
        !(1 <= minutes <= 60) ==> fails_with(r, ErrorCode::InvalidRequest, "expiresInMinutes must be between 1 and 60"@),
{
    if minutes < 1 || minutes > MAX_PAIRING_TTL_MINUTES {
        Err(ApiError::new(ErrorCode::InvalidRequest, "expiresInMinutes must be between 1 and 60"))
    } else {
        Ok(())
    }
}

/// A fresh pairing code: 128 random bits, unpadded base64url (22 characters); `None` when the
/// random source fails.
pub fn generate_pairing_code() -> (r: Option<String>)
    ensures
        r matches Some(c) ==> {
            &&& c@.len() == 22
            &&& exists|b: Seq<u8>| b.len() == 16 && c@ == base64url_text(b)
            &&& forall|i: int| 0 <= i < c@.len() ==> is_base64url_char(#[trigger] c@[i])
        },
{
    let bytes = match random_bytes(16) {
        Some(b) => b,
        None => return None,
    };
    let code = base64url_encode(bytes.as_slice());
    proof {
        lemma_base64url_text_shape(bytes@);
    }
    assert((4 * 16 + 2) / 3 == 22);
    Some(code)
}

/// A SQLite UTC datetime (`YYYY-MM-DD HH:MM:SS`) as RFC 3339: every space becomes `T`, and a `Z`
/// zone designator is appended.
pub open spec fn rfc3339_utc_spec(s: Seq<char>) -> Seq<char> {
    s.map_values(|c: char| if c == ' ' { 'T' } else { c }).push('Z')
}

/// A SQLite UTC datetime as an unambiguous RFC 3339 instant (the expiry drives client-side
/// validity math, so it carries its zone).
pub fn to_rfc3339_utc(sqlite_datetime: &str) -> (r: String)
    ensures
        r@ == rfc3339_utc_spec(sqlite_datetime@),
{
    let cs = chars_of(sqlite_datetime);
    let mut out = String::new();
    let mut i: usize = 0;
    while i < cs.len()
        invariant
            cs@ == sqlite_datetime@,
            i <= cs@.len(),
            out@ == cs@.take(i as int).map_values(|c: char| if c == ' ' { 'T' } else { c }),
        decreases cs@.len() - i,
    {
        let c = cs[i];
        let d = if c == ' ' { 'T' } else { c };
        push_char(&mut out, d);
        assert(cs@.take(i + 1).map_values(|c: char| if c == ' ' { 'T' } else { c }) =~= cs@.take(
            i as int,
        ).map_values(|c: char| if c == ' ' { 'T' } else { c }).push(d));
        i = i + 1;
    }
    assert(cs@.take(cs@.len() as int) =~= cs@);
    push_char(&mut out, 'Z');
    out
}

/// After inserting the code drawn at attempt `attempt` (0-based): answer on success, draw again
/// after a collision while attempts remain, and fail on any other error or once every attempt
/// collided.
pub fn after_pairing_insert(attempt: usize, outcome: InsertOutcome) -> (r: MintStep)
    ensures
        outcome is Stored ==> r is Done,
        outcome is Failed ==> (r matches MintStep::Fail(e) && is_api_error(
            e,
            ErrorCode::InternalError,
            "failed to store pairing code"@,
        )),
        outcome is UniqueViolation && attempt + 1 < PAIRING_ATTEMPTS ==> r is Retry,
        outcome is UniqueViolation && attempt + 1 >= PAIRING_ATTEMPTS ==> (r matches MintStep::Fail(e)
            && is_api_error(e, ErrorCode::InternalError, "failed to generate a unique pairing code after retries"@)),
{
    match outcome {
        InsertOutcome::Stored => MintStep::Done,
        InsertOutcome::Failed => MintStep::Fail(
            ApiError::new(ErrorCode::InternalError, "failed to store pairing code"),
        ),
        InsertOutcome::UniqueViolation => {
            if attempt < PAIRING_ATTEMPTS - 1 {
                MintStep::Retry
            } else {
                MintStep::Fail(
                    ApiError::new(
                        ErrorCode::InternalError,
                        "failed to generate a unique pairing code after retries",
                    ),
                )
            }
        },
    }
}

/// The answer for a stored code, its expiry rendered as RFC 3339 UTC.
pub fn pairing_code_minted(pairing_code: String, stored_expiry: &str) -> (r: PairingCodeResponse)
    ensures
        r.pairing_code@ == pairing_code@,
        r.expires_at@ == rfc3339_utc_spec(stored_expiry@),
{
    PairingCodeResponse { pairing_code, expires_at: to_rfc3339_utc(stored_expiry) }
}

/// `POST /v1/admin/devices` body.
#[derive(Debug)]
pub struct RegisterDeviceRequest {
    pub pairing_code: String,
    pub label: String,
    pub public_key: String,
    pub platform: String,
    pub timestamp: i64,
    pub signature: String,
}

/// The id the phone stores and sends as `X-Admin-Device`.
#[derive(Debug)]
pub struct RegisterDeviceResponse {
    pub device_id: String,
}

/// The label, platform and public key must not be blank, checked in that order.
pub fn check_registration_shape(req: &RegisterDeviceRequest) -> (r: Result<(), ApiError>)
    ensures
        trim_spec(req.label@).len() == 0 ==> fails_with(r, ErrorCode::InvalidRequest, "label is required"@),
        trim_spec(req.label@).len() > 0 && trim_spec(req.platform@).len() == 0 ==> fails_with(
            r,
            ErrorCode::InvalidRequest,
            "platform is required"@,
        ),
        trim_spec(req.label@).len() > 0 && trim_spec(req.platform@).len() > 0 && trim_spec(
            req.public_key@,
        ).len() == 0 ==> fails_with(r, ErrorCode::InvalidRequest, "publicKey is required"@),
        trim_spec(req.label@).len() > 0 && trim_spec(req.platform@).len() > 0 && trim_spec(
            req.public_key@,
        ).len() > 0 ==> r is Ok,
{
    if crate::text::is_blank(req.label.as_str()) {
        return Err(ApiError::new(ErrorCode::InvalidRequest, "label is required"));
    }
    if crate::text::is_blank(req.platform.as_str()) {
        return Err(ApiError::new(ErrorCode::InvalidRequest, "platform is required"));
    }
    if crate::text::is_blank(req.public_key.as_str()) {
        return Err(ApiError::new(ErrorCode::InvalidRequest, "publicKey is required"));
    }
    Ok(())
}

/// Why a registration is refused: the single generic credentials failure (whatever check
/// failed), or a server-side error with its own message.
#[derive(Debug)]
pub enum RegistrationRefusal {
    InvalidCredentials,
    Internal(ApiError),
}

/// What the pending check answers for a lookup of the pairing code: it passes a pending code;
/// unknown, expired and consumed codes alike are the generic credentials refusal.
pub open spec fn pairing_pending_answers(lookup: Result<Option<bool>, ()>, r: Result<(), RegistrationRefusal>) -> bool {
    match lookup {
        Err(_) => r matches Err(RegistrationRefusal::Internal(e)) && is_api_error(
            e,
            ErrorCode::InternalError,
            "pairing lookup failed"@,
        ),
        Ok(Some(true)) => r is Ok,
        Ok(_) => r matches Err(RegistrationRefusal::InvalidCredentials),
    }
}

/// What the consume step answers for its guarded write: it passes when the write took; one that found the
/// code no longer pending is the generic credentials refusal.
pub open spec fn pairing_consumed_answers(consumed: Result<bool, ()>, r: Result<(), RegistrationRefusal>) -> bool {
    match consumed {
        Err(_) => r matches Err(RegistrationRefusal::Internal(e)) && is_api_error(
            e,
            ErrorCode::InternalError,
            "registration failed"@,
        ),
        Ok(true) => r is Ok,
        Ok(false) => r matches Err(RegistrationRefusal::InvalidCredentials),
    }
}

/// Consuming a stored pairing code that is `pending`: the guarded write takes exactly when it is
/// pending, and the code is no longer pending after.
pub open spec fn consume_code(pending: bool) -> (bool, bool) {
    (pending, false)
}

/// The pairing code must exist and be pending (`lookup` holds whether the stored code is pending;
/// unknown, expired and consumed codes are refused alike).
pub fn pairing_code_pending(lookup: Result<Option<bool>, ()>) -> (r: Result<(), RegistrationRefusal>)
    ensures
        pairing_pending_answers(lookup, r),
{
    match lookup {
        Err(_) => Err(RegistrationRefusal::Internal(ApiError::new(ErrorCode::InternalError, "pairing lookup failed"))),
        Ok(Some(true)) => Ok(()),
        Ok(_) => Err(RegistrationRefusal::InvalidCredentials),
    }
}

/// Consuming the code inside the transaction is the authoritative single-use gate: a lost race
/// (a concurrent claim, or a code that just expired) consumes nothing and is refused.
pub fn pairing_code_consumed(consumed: Result<bool, ()>) -> (r: Result<(), RegistrationRefusal>)
    ensures
        pairing_consumed_answers(consumed, r),
{
    match consumed {
        Err(_) => Err(RegistrationRefusal::Internal(ApiError::new(ErrorCode::InternalError, "registration failed"))),
        Ok(true) => Ok(()),
        Ok(false) => Err(RegistrationRefusal::InvalidCredentials),
    }
}

/// A pairing code registers one device: once a registration has consumed it, a second
/// registration with the same code finds it no longer pending and is refused with the generic
/// credentials error, and its consume step, should it get that far, takes no row either.
pub proof fn a_pairing_code_registers_once(pending: bool)
    ensures
        forall|r: Result<(), RegistrationRefusal>|
            #[trigger] pairing_pending_answers(Ok(Some(consume_code(pending).1)), r) ==> r matches Err(
                RegistrationRefusal::InvalidCredentials,
            ),
        forall|r: Result<(), RegistrationRefusal>|
            #[trigger] pairing_consumed_answers(Ok(consume_code(consume_code(pending).1).0), r) ==> r matches Err(
                RegistrationRefusal::InvalidCredentials,
            ),
{
}

/// What is stored for a registered device: the label and platform trimmed, the public key as
/// given.
#[derive(Debug)]
pub struct NewAdminDevice {
    pub id: String,
    pub label: String,
    pub public_key: String,
    pub platform: String,
}

/// The device row for a registration with server-assigned id `id`.
pub fn new_device(id: String, req: &RegisterDeviceRequest) -> (d: NewAdminDevice)
    ensures
        d.id@ == id@,
        d.label@ == trim_spec(req.label@),
        d.public_key@ == req.public_key@,
        d.platform@ == trim_spec(req.platform@),
{
    NewAdminDevice {
        id,
        label: trim(req.label.as_str()),
        public_key: crate::text::owned(req.public_key.as_str()),
        platform: trim(req.platform.as_str()),
    }
}

/// The stages of registering a device, in order. The signature is verified before the code is
/// consumed, so a bad signature never burns a code.
#[derive(Clone, Copy, Debug, PartialEq, Eq, Structural)]
pub enum RegisterDeviceStage {
    CheckShape,
    /// The code must be pending.
    CheckCode,
    /// The self-signature must verify against the supplied key.
    VerifySignature,
    Begin,
    ConsumeCode,
    InsertDevice,
    Commit,
}

impl Stage for RegisterDeviceStage {
    open spec fn successor(self) -> Option<RegisterDeviceStage> {
        match self {
            RegisterDeviceStage::CheckShape => Some(RegisterDeviceStage::CheckCode),
            RegisterDeviceStage::CheckCode => Some(RegisterDeviceStage::VerifySignature),
            RegisterDeviceStage::VerifySignature => Some(RegisterDeviceStage::Begin),
            RegisterDeviceStage::Begin => Some(RegisterDeviceStage::ConsumeCode),
            RegisterDeviceStage::ConsumeCode => Some(RegisterDeviceStage::InsertDevice),
            RegisterDeviceStage::InsertDevice => Some(RegisterDeviceStage::Commit),
            RegisterDeviceStage::Commit => None,
        }
    }

    fn following(&self) -> (r: Option<RegisterDeviceStage>) {
        match self {
            RegisterDeviceStage::CheckShape => Some(RegisterDeviceStage::CheckCode),
            RegisterDeviceStage::CheckCode => Some(RegisterDeviceStage::VerifySignature),
            RegisterDeviceStage::VerifySignature => Some(RegisterDeviceStage::Begin),
            RegisterDeviceStage::Begin => Some(RegisterDeviceStage::ConsumeCode),
            RegisterDeviceStage::ConsumeCode => Some(RegisterDeviceStage::InsertDevice),
            RegisterDeviceStage::InsertDevice => Some(RegisterDeviceStage::Commit),
            RegisterDeviceStage::Commit => None,
        }
    }
}


/// The server-assigned id of a newly registered device: a fresh random UUID, hyphenated; `None`
/// when the random source fails.
pub fn new_device_id() -> (r: Option<String>)
    ensures
        r matches Some(id) ==> {
            &&& exists|b: Seq<u8>| b.len() == 16 && id@ == uuid_hyphenated(uuid_hex(uuid_v4_bytes(b)))
            &&& id@.len() == 36
            &&& forall|i: int| 0 <= i < 36 ==> if i == 8 || i == 13 || i == 18 || i == 23 {
                #[trigger] id@[i] == '-'
            } else {
                crate::boundary::is_lower_hex(id@[i])
            }
            &&& id@[14] == '4'
        },
{
    match random_16() {
        None => None,
        Some(bytes) => {
            let id = crate::boundary::uuid_v4_hyphenated(bytes);
            proof {
                lemma_uuid_hyphenated_shape(bytes@);
            }
            Some(id)
        },
    }
}


/// A SQLite datetime rendered for the wire is an unambiguous UTC instant: it ends with the `Z`
/// designator, holds no space, and is the input with one more character.
pub proof fn rendered_expiry_is_zoned(s: Seq<char>)
    ensures
        rfc3339_utc_spec(s).len() == s.len() + 1,
        rfc3339_utc_spec(s).last() == 'Z',
        forall|i: int| 0 <= i < rfc3339_utc_spec(s).len() ==> #[trigger] rfc3339_utc_spec(s)[i] != ' ',
{
    let r = rfc3339_utc_spec(s);
    assert forall|i: int| 0 <= i < r.len() implies #[trigger] r[i] != ' ' by {
        if i < s.len() {
            assert(r[i] == (if s[i] == ' ' { 'T' } else { s[i] }));
        }
    }
}

} // verus!
