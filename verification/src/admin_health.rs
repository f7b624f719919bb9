//! `GET /v1/admin/health` — the operator's server-health readout: literal account and storage
//! counts, firehose state and each sweep's last completed pass. Raw facts only, no verdicts.

use vstd::prelude::*;
use crate::boundary::{chrono_max_secs, rfc3339_instant, rfc3339_instant_of};
use crate::error::{ApiError, ErrorCode, is_api_error};

verus! {

/// The readout.
#[derive(Debug)]
pub struct HealthResponse {
    pub version: &'static str,
    pub uptime_seconds: u64,
    pub accounts: AccountCounts,
    pub storage: StorageCounts,
    pub firehose: FirehoseState,
    pub sweeps: SweepStates,
}

/// Accounts by derived lifecycle (takendown over suspended over deactivated).
#[derive(Debug)]
pub struct AccountCounts {
    pub total: i64,
    pub active: i64,
    pub deactivated: i64,
    pub suspended: i64,
    pub takendown: i64,
}

/// Physical blob and block rows.
#[derive(Debug)]
pub struct StorageCounts {
    pub blob_count: i64,
    pub blob_bytes: i64,
    pub block_count: i64,
}

/// The firehose: head, subscribers, retained backlog and how far back it reaches.
#[derive(Debug)]
pub struct FirehoseState {
    pub current_seq: u64,
    pub subscribers: usize,
    pub retained_events: i64,
    pub backfill_window_seconds: Option<i64>,
}

/// Each sweep's last completed pass, none until its first pass after boot.
#[derive(Debug)]
pub struct SweepStates {
    pub blob_gc: Option<SweepState>,
    pub firehose_gc: Option<SweepState>,
    pub account_reaper: Option<SweepState>,
    pub agent_claim_sweep: Option<SweepState>,
}

/// A sweep's last completed pass as the sweep recorded it.
#[derive(Clone, Copy, Debug, PartialEq, Eq, Structural)]
pub struct SweepRun {
    pub completed_at: i64,
    pub swept: u64,
}

/// A sweep's last completed pass as the readout reports it: when (Unix seconds) and how many
/// items it acted on.
#[derive(Clone, Copy, Debug, PartialEq, Eq, Structural)]
pub struct SweepState {
    pub completed_at: i64,
    pub swept: u64,
}

impl From<SweepRun> for SweepState {
    fn from(run: SweepRun) -> (s: SweepState) {
        SweepState { completed_at: run.completed_at, swept: run.swept }
    }
}

impl vstd::std_specs::convert::FromSpecImpl<SweepRun> for SweepState {
    open spec fn obeys_from_spec() -> bool {
        true
    }

    open spec fn from_spec(run: SweepRun) -> SweepState {
        SweepState { completed_at: run.completed_at, swept: run.swept }
    }
}

/// Failure gathering the server aggregates.
pub fn stats_error() -> (e: ApiError)
    ensures
        is_api_error(e, ErrorCode::InternalError, "failed to gather server stats"@),
{
    ApiError::new(ErrorCode::InternalError, "failed to gather server stats")
}

/// Failure reading the oldest retained firehose event.
pub fn oldest_event_error() -> (e: ApiError)
    ensures
        is_api_error(e, ErrorCode::InternalError, "failed to read oldest firehose event"@),
{
    ApiError::new(ErrorCode::InternalError, "failed to read oldest firehose event")
}

/// The age in whole seconds of an event sequenced at `then` when it is `now` (each as Unix
/// seconds and nanoseconds), never negative: the elapsed time truncated to seconds, or 0 when
/// `then` is in the future.
pub open spec fn age_seconds(now: (i64, u32), then: (i64, u32)) -> int {
    let elapsed_ns = (now.0 - then.0) * 1_000_000_000 + (now.1 - then.1);
    if elapsed_ns <= 0 {
        0
    } else {
        elapsed_ns / 1_000_000_000
    }
}

/// How far back the retained log reaches: the age of its oldest event. No log, or an
/// unparseable timestamp (a writer bug), reads as none rather than failing the readout.
pub fn backfill_window(oldest: Option<&str>, now: (i64, u32)) -> (r: Option<i64>)
    requires
        -10_000_000_000_000 < now.0 < 10_000_000_000_000,
        now.1 < 2_000_000_000,
    ensures
        match oldest {
            None => r is None,
            Some(t) => match rfc3339_instant_of(t@) {
                None => r is None,
                Some(then) => r == Some(age_seconds(now, then) as i64),
            },
        },
        r is Some ==> r->0 >= 0,
{
    let t = match oldest {
        None => return None,
        Some(t) => t,
    };
    let then = match rfc3339_instant(t) {
        None => return None,
        Some(v) => v,
    };
    let ds: i128 = now.0 as i128 - then.0 as i128;
    let dn: i128 = now.1 as i128 - then.1 as i128;
    let elapsed: i128 = ds * 1_000_000_000 + dn;
    if elapsed <= 0 {
        Some(0)
    } else {
        let secs: i128 = elapsed / 1_000_000_000;
        assert(secs <= i64::MAX) by (nonlinear_arith)
            requires
                secs == elapsed / 1_000_000_000,
                elapsed == ds * 1_000_000_000 + dn,
                ds < 20_000_000_000_000,
                dn < 2_000_000_000,
                elapsed > 0,
        ;
        Some(secs as i64)
    }
}


/// How far back the retained log reaches, measured against the clock now: the age of the oldest
/// event at some reading of the clock between the Unix epoch and chrono's latest date. A clock
/// that cannot be read leaves the window unknown, as an unparseable timestamp does.
pub fn backfill_window_now(oldest: Option<&str>) -> (r: Option<i64>)
    ensures
        match oldest {
            None => r is None,
            Some(t) => match rfc3339_instant_of(t@) {
                None => r is None,
                Some(then) => r matches Some(w) ==> exists|now: (i64, u32)|
                    0 <= now.0 <= chrono_max_secs() && now.1 < 1_000_000_000 && w
                        == #[trigger] age_seconds(now, then) as i64,
            },
        },
        r is Some ==> r->0 >= 0,
{
    let now = match crate::clock::now_instant() {
        Some(now) => now,
        None => return None,
    };
    let r = backfill_window(oldest, now);
    proof {
        if let Some(t) = oldest {
            if let Some(then) = rfc3339_instant_of(t@) {
                assert(r == Some(age_seconds(now, then) as i64));
            }
        }
    }
    r
}

} // verus!
