//! Claim codes: admin minting of single-use signup codes, the inventory listing with each code's
//! derived lifecycle status, and revocation.

use vstd::prelude::*;
use crate::code_gen::{
    code_numbered, code_space, generate_code, is_code, lemma_numbered_codes,
    numbered_code,
};
use vstd::relations::injective_on;
use vstd::seq_lib::seq_to_set_is_finite;
use vstd::set_lib::{lemma_int_range, lemma_len_subset, lemma_map_size, set_int_range};
use crate::error::{ApiError, ErrorCode, fails_with};
use crate::paging::{decimal_string, i64_to_string};
use crate::text::{owned, str_eq};

verus! {

/// The most codes one mint request may ask for.
pub const MAX_COUNT: u32 = 10;

/// The largest inventory page.
pub const MAX_LIST_LIMIT: u32 = 200;

/// The inventory page size when the request names none.
pub fn default_list_limit() -> (r: u32)
    ensures
        r == 50,
{
    50
}

/// The code lifetime when the mint request names none.
pub fn default_expires_in_hours() -> (r: u32)
    ensures
        r == 24,
{
    24
}

/// `POST /v1/accounts/claim-codes` body.
#[derive(Debug)]
pub struct ClaimCodesRequest {
    pub count: u32,
    pub expires_in_hours: u32,
}

/// The minted batch: upper-case alphanumeric codes, unique within the batch.
#[derive(Debug)]
pub struct ClaimCodesResponse {
    pub codes: Vec<String>,
}

/// Inventory query: page size and the previous page's last `id` (exclusive).
#[derive(Debug)]
pub struct ListClaimCodesParams {
    pub limit: u32,
    pub cursor: Option<i64>,
}

/// One code in the inventory with its derived status.
#[derive(Debug)]
pub struct ClaimCodeView {
    pub code: String,
    pub status: &'static str,
    pub created_at: String,
    pub expires_at: String,
    pub redeemed_at: Option<String>,
    pub revoked_at: Option<String>,
}

/// An inventory page; `cursor` is present when another page may exist.
#[derive(Debug)]
pub struct ListClaimCodesResponse {
    pub codes: Vec<ClaimCodeView>,
    pub cursor: Option<String>,
}

/// `POST /v1/accounts/claim-codes/revoke` body.
#[derive(Debug)]
pub struct RevokeClaimCodeRequest {
    pub code: String,
}

/// The revoked code and its resulting status.
#[derive(Debug)]
pub struct RevokeClaimCodeResponse {
    pub code: String,
    pub status: &'static str,
}

/// A stored claim code as the inventory reads it.
#[derive(Debug)]
pub struct ClaimCodeRow {
    pub id: i64,
    pub code: String,
    pub created_at: String,
    pub expires_at: String,
    pub redeemed_at: Option<String>,
    pub revoked_at: Option<String>,
    pub is_expired: bool,
}

/// The status word of a row: a redemption or revocation is reported forever (the event wins over
/// the clock); `expired` and `pending` apply only to codes nothing happened to.
pub open spec fn status_of(redeemed: bool, revoked: bool, expired: bool) -> Seq<char> {
    if redeemed {
        "redeemed"@
    } else if revoked {
        "revoked"@
    } else if expired {
        "expired"@
    } else {
        "pending"@
    }
}

/// Collapse a row's lifecycle timestamps into the one status word the operator sees.
pub fn derive_status(row: &ClaimCodeRow) -> (r: &'static str)
    ensures
        r@ == status_of(row.redeemed_at is Some, row.revoked_at is Some, row.is_expired),
{
    if row.redeemed_at.is_some() {
        "redeemed"
    } else if row.revoked_at.is_some() {
        "revoked"
    } else if row.is_expired {
        "expired"
    } else {
        "pending"
    }
}

/// A redeemed or revoked code never reads as `expired` or `pending`, whatever the clock says.
pub proof fn terminal_events_outrank_the_clock(redeemed: bool, revoked: bool, expired: bool)
    requires
        redeemed || revoked,
    ensures
        status_of(redeemed, revoked, expired) != "expired"@,
        status_of(redeemed, revoked, expired) != "pending"@,
{
    reveal_strlit("redeemed");
    reveal_strlit("revoked");
    reveal_strlit("expired");
    reveal_strlit("pending");
    assert("redeemed"@[2] != "expired"@[2]);
    assert("revoked"@[2] != "expired"@[2]);
    assert("redeemed"@.len() != "pending"@.len());
    assert("revoked"@[0] != "pending"@[0]);
}

/// Validate a mint request: `count` in `1..=10` and a positive lifetime.
pub fn validate_mint_request(req: &ClaimCodesRequest) -> (r: Result<(), ApiError>)
    ensures
        (req.count == 0 || req.count > MAX_COUNT) ==> fails_with(
            r,
            ErrorCode::InvalidClaim,
            "count must be between 1 and 10"@,
        ),
        (1 <= req.count <= MAX_COUNT && req.expires_in_hours == 0) ==> fails_with(
            r,
            ErrorCode::InvalidClaim,
            "expiresInHours must be greater than 0"@,
        ),
        r is Ok <==> (1 <= req.count <= MAX_COUNT && req.expires_in_hours > 0),
{
    if req.count == 0 || req.count > MAX_COUNT {
        return Err(ApiError::new(ErrorCode::InvalidClaim, "count must be between 1 and 10"));
    }
    if req.expires_in_hours == 0 {
        return Err(ApiError::new(ErrorCode::InvalidClaim, "expiresInHours must be greater than 0"));
    }
    Ok(())
}

/// Whether `codes` holds `code`.
fn holds_code(codes: &Vec<String>, code: &String) -> (r: bool)
    ensures
        r == exists|i: int| 0 <= i < codes@.len() && #[trigger] codes@[i]@ == code@,
{
    let mut i: usize = 0;
    while i < codes.len()
        invariant
            i <= codes@.len(),
            forall|j: int| 0 <= j < i ==> #[trigger] codes@[j]@ != code@,
        decreases codes@.len() - i,
    {
        if str_eq(codes[i].as_str(), code.as_str()) {
            return true;
        }
        i = i + 1;
    }
    false
}

/// Pairwise-distinct codes.
pub open spec fn all_distinct(codes: Seq<String>) -> bool {
    forall|i: int, j: int| 0 <= i < j < codes.len() ==> #[trigger] codes[i]@ != #[trigger] codes[j]@
}

/// The texts of `codes`.
pub open spec fn code_texts(codes: Seq<String>) -> Seq<Seq<char>> {
    codes.map_values(|c: String| c@)
}

/// Fewer than `code_space()` codes leave one of the first `taken.len() + 1` numbered codes free,
/// since those are pairwise distinct.
proof fn lemma_a_numbered_code_is_free(taken: Seq<Seq<char>>)
    requires
        taken.len() < code_space(),
    ensures
        exists|k: nat| k <= taken.len() && !taken.contains(#[trigger] numbered_code(k)),
{
    if forall|k: nat| k <= taken.len() ==> taken.contains(#[trigger] numbered_code(k)) {
        lemma_every_numbered_code_held(taken);
        taken.lemma_cardinality_of_set();
    }
}

/// Were the first `taken.len() + 1` numbered codes all held, `taken` would hold more distinct
/// texts than it has places.
proof fn lemma_every_numbered_code_held(taken: Seq<Seq<char>>)
    requires
        taken.len() < code_space(),
        forall|k: nat| k <= taken.len() ==> taken.contains(#[trigger] numbered_code(k)),
    ensures
        taken.to_set().len() > taken.len(),
{
    let n: int = taken.len() as int;
    let ks = set_int_range(0, n + 1);
    let f = |k: int| numbered_code(k as nat);
    lemma_int_range(0, n + 1);
    assert(injective_on(f, ks)) by {
        assert forall|x1: int, x2: int|
            ks.contains(x1) && ks.contains(x2) && #[trigger] f(x1) == #[trigger] f(x2) implies x1
                == x2 by {
            lemma_numbered_codes(x1 as nat, x2 as nat);
        }
    }
    let hit = ks.map(f);
    lemma_map_size(ks, hit, f);
    let held = taken.to_set();
    assert(hit.subset_of(held)) by {
        assert forall|y: Seq<char>| hit.contains(y) implies held.contains(y) by {
            let k = choose|k: int| ks.contains(k) && f(k) == y;
            assert(taken.contains(numbered_code(k as nat)));
        }
    }
    seq_to_set_is_finite(taken);
    lemma_len_subset(hit, held);
}

/// The first code in alphabet order that `codes` does not hold. Fewer than `code_space()` codes
/// are held, so one among the first `codes.len() + 1` is free.
fn first_free_code(codes: &Vec<String>) -> (c: String)
    requires
        codes@.len() < code_space(),
    ensures
        is_code(c@),
        forall|i: int| 0 <= i < codes@.len() ==> #[trigger] codes@[i]@ != c@,
{
    let ghost taken = code_texts(codes@);
    let mut k: u64 = 0;
    loop
        invariant
            k <= codes@.len(),
            codes@.len() < code_space(),
            taken == code_texts(codes@),
            forall|j: nat| j < k ==> taken.contains(#[trigger] numbered_code(j)),
        decreases codes@.len() - k,
    {
        let c = code_numbered(k);
        proof {
            lemma_numbered_codes(k as nat, k as nat);
        }
        if !holds_code(codes, &c) {
            return c;
        }
        proof {
            let i = choose|i: int| 0 <= i < codes@.len() && #[trigger] codes@[i]@ == c@;
            assert(taken[i] == c@);
            assert(taken.contains(numbered_code(k as nat)));
            if k == codes@.len() {
                lemma_a_numbered_code_is_free(taken);
                let free = choose|j: nat| j <= taken.len() && !taken.contains(#[trigger] numbered_code(j));
                assert(free < k || free == k);
            }
        }
        k = k + 1;
    }
}

/// The random draws made for one code before falling back to the first free code in alphabet
/// order.
pub const DRAW_BUDGET: u64 = 18446744073709551615;

/// A code that `codes` does not hold: random codes are drawn and one already taken is discarded;
/// should the draw budget ever run out, the first free code in alphabet order is taken. `None`
/// when the random source fails.
fn fresh_code(codes: &Vec<String>) -> (c: Option<String>)
    requires
        codes@.len() < code_space(),
    ensures
        c matches Some(code) ==> {
            &&& is_code(code@)
            &&& forall|i: int| 0 <= i < codes@.len() ==> #[trigger] codes@[i]@ != code@
        },
{
    let mut budget: u64 = DRAW_BUDGET;
    while budget > 0
        decreases budget,
    {
        budget = budget - 1;
        let code = match generate_code() {
            Some(code) => code,
            None => return None,
        };
        if !holds_code(codes, &code) {
            return Some(code);
        }
    }
    Some(first_free_code(codes))
}

/// Generate `count` unique codes, ensuring no duplicates within the batch: each place gets a fresh
/// code, and a draw that repeats one already taken is discarded. `None` when the random source
/// fails (never for an empty batch, which draws nothing). Only `code_space()` distinct codes
/// exist, so no larger batch can be made (asking for one would never end).
pub fn generate_unique_codes(count: usize) -> (r: Option<Vec<String>>)
    requires
        count <= code_space(),
    ensures
        r matches Some(codes) ==> {
            &&& codes@.len() == count
            &&& all_distinct(codes@)
            &&& forall|i: int| 0 <= i < codes@.len() ==> is_code(#[trigger] codes@[i]@)
        },
        count == 0 ==> (r matches Some(codes) && codes@.len() == 0),
{
    let mut codes: Vec<String> = Vec::new();
    while codes.len() < count
        invariant
            codes@.len() <= count <= code_space(),
            all_distinct(codes@),
            forall|i: int| 0 <= i < codes@.len() ==> is_code(#[trigger] codes@[i]@),
        decreases count - codes@.len(),
    {
        let code = match fresh_code(&codes) {
            Some(code) => code,
            None => return None,
        };
        let ghost before = codes@;
        codes.push(code);
        assert forall|i: int, j: int| 0 <= i < j < codes@.len() implies #[trigger] codes@[i]@
            != #[trigger] codes@[j]@ by {
            if j == before.len() {
                assert(codes@[i] == before[i]);
            } else {
                assert(codes@[i] == before[i] && codes@[j] == before[j]);
            }
        }
    }
    Some(codes)
}

/// What one insert attempt of a minted batch came back with.
#[derive(Debug)]
pub enum InsertOutcome {
    Stored,
    UniqueViolation,
    Failed,
}

/// What the minting loop does next.
#[derive(Debug)]
pub enum MintStep {
    /// The batch is stored: answer with it.
    Done,
    /// A collision with an existing code: draw a fresh batch and insert again.
    Retry,
    /// Give up with this error.
    Fail(ApiError),
}

/// The attempts the minting loop makes before giving up.
pub const MINT_ATTEMPTS: usize = 3;

/// After insert attempt `attempt` (0-based): done on success, retry a collision while attempts
/// remain, and fail on any other database error or once all three attempts collided.
pub fn after_insert(attempt: usize, outcome: InsertOutcome) -> (r: MintStep)
    ensures
        outcome is Stored ==> r is Done,
        outcome is Failed ==> (r matches MintStep::Fail(e) && e.code == ErrorCode::InternalError
            && e.message@ == "failed to store claim codes"@),
        outcome is UniqueViolation && attempt + 1 < MINT_ATTEMPTS ==> r is Retry,
        outcome is UniqueViolation && attempt + 1 >= MINT_ATTEMPTS ==> (r matches MintStep::Fail(e)
            && e.code == ErrorCode::InternalError && e.message@
            == "failed to generate unique claim codes after retries"@),
{
    match outcome {
        InsertOutcome::Stored => MintStep::Done,
        InsertOutcome::Failed => MintStep::Fail(
            ApiError::new(ErrorCode::InternalError, "failed to store claim codes"),
        ),
        InsertOutcome::UniqueViolation => {
            if attempt < MINT_ATTEMPTS - 1 {
                MintStep::Retry
            } else {
                MintStep::Fail(
                    ApiError::new(
                        ErrorCode::InternalError,
                        "failed to generate unique claim codes after retries",
                    ),
                )
            }
        },
    }
}

/// Validate an inventory page size: `1..=200`.
pub fn validate_list_limit(limit: u32) -> (r: Result<(), ApiError>)
    ensures
        r is Ok <==> 1 <= limit <= MAX_LIST_LIMIT,
        r is Err ==> fails_with(r, ErrorCode::InvalidRequest, "limit must be between 1 and 200"@),
{
    if limit == 0 || limit > MAX_LIST_LIMIT {
        Err(ApiError::new(ErrorCode::InvalidRequest, "limit must be between 1 and 200"))
    } else {
        Ok(())
    }
}

/// `row` rendered as its inventory view.
pub open spec fn view_matches(v: ClaimCodeView, row: ClaimCodeRow) -> bool {
    &&& v.code@ == row.code@
    &&& v.status@ == status_of(row.redeemed_at is Some, row.revoked_at is Some, row.is_expired)
    &&& v.created_at@ == row.created_at@
    &&& v.expires_at@ == row.expires_at@
    &&& v.redeemed_at == row.redeemed_at
    &&& v.revoked_at == row.revoked_at
}

/// Build an inventory page from the rows read for it (newest first). The cursor is the last row's
/// `id` exactly when the page is full.
pub fn inventory_page(rows: Vec<ClaimCodeRow>, limit: u32) -> (r: ListClaimCodesResponse)
    ensures
        r.codes@.len() == rows@.len(),
        forall|i: int| 0 <= i < rows@.len() ==> view_matches(#[trigger] r.codes@[i], rows@[i]),
        r.cursor is Some <==> (rows@.len() == limit && rows@.len() > 0),
        r.cursor matches Some(c) ==> c@ == decimal_string(rows@.last().id as int),
{
    let cursor = if rows.len() == limit as usize && rows.len() > 0 {
        Some(i64_to_string(rows[rows.len() - 1].id))
    } else {
        None
    };
    let mut codes: Vec<ClaimCodeView> = Vec::new();
    let mut i: usize = 0;
    while i < rows.len()
        invariant
            i <= rows@.len(),
            codes@.len() == i,
            forall|j: int| 0 <= j < i ==> view_matches(#[trigger] codes@[j], rows@[j]),
        decreases rows@.len() - i,
    {
        let row = &rows[i];
        codes.push(
            ClaimCodeView {
                code: row.code.clone(),
                status: derive_status(row),
                created_at: row.created_at.clone(),
                expires_at: row.expires_at.clone(),
                redeemed_at: row.redeemed_at.clone(),
                revoked_at: row.revoked_at.clone(),
            },
        );
        i = i + 1;
    }
    ListClaimCodesResponse { codes, cursor }
}

/// What revoking a code found.
#[derive(Debug)]
pub enum RevokeClaimCodeOutcome {
    Revoked,
    AlreadyRevoked,
    Redeemed,
    NotFound,
}

/// The answer to a revocation: `revoked` (also for a repeat), 409 for a redeemed code, 404 for an
/// unknown one.
pub fn revoke_response(code: String, outcome: RevokeClaimCodeOutcome) -> (r: Result<
    RevokeClaimCodeResponse,
    ApiError,
>)
    ensures
        (outcome is Revoked || outcome is AlreadyRevoked) <==> r is Ok,
        r matches Ok(v) ==> v.code@ == code@ && v.status@ == "revoked"@,
        outcome is Redeemed ==> fails_with(r, ErrorCode::Conflict, "code has already been redeemed"@),
        outcome is NotFound ==> fails_with(r, ErrorCode::NotFound, "unknown claim code"@),
{
    match outcome {
        RevokeClaimCodeOutcome::Revoked | RevokeClaimCodeOutcome::AlreadyRevoked => Ok(
            RevokeClaimCodeResponse { code, status: "revoked" },
        ),
        RevokeClaimCodeOutcome::Redeemed => Err(
            ApiError::new(ErrorCode::Conflict, "code has already been redeemed"),
        ),
        RevokeClaimCodeOutcome::NotFound => Err(ApiError::new(ErrorCode::NotFound, "unknown claim code")),
    }
}

/// The SQLite `datetime` offset for a code lifetime: `+{hours} hours`.
pub fn expiry_offset(expires_in_hours: u32) -> (r: String)
    ensures
        r@ == "+"@ + decimal_string(expires_in_hours as int) + " hours"@,
{
    let mut r = owned("+");
    let n = crate::paging::u64_to_string(expires_in_hours as u64);
    r.append(n.as_str());
    r.append(" hours");
    r
}

} // verus!
