//! `GET /v1/admin/relay-status` — is the upstream relay crawling this PDS? The readout sets our
//! exact sequencer head beside what the primary relay reports for our hostname and derives the
//! gap; it reports raw facts only, with no verdict.

use vstd::prelude::*;
use crate::text::owned;

verus! {

/// The relay-federation readout.
#[derive(Debug)]
pub struct RelayStatusResponse {
    /// The relay queried (the first configured crawler, bare host); `None` with none configured.
    pub relay_host: Option<String>,
    /// Whether the relay answered at all (a "host not found" answer counts).
    pub reachable: bool,
    /// The relay's lifecycle status for us, verbatim.
    pub relay_status: Option<String>,
    /// The relay's cursor into our sequence space.
    pub relay_seq: Option<u64>,
    pub account_count: Option<u64>,
    /// Our exact sequencer head.
    pub pds_head_seq: u64,
    /// `pdsHeadSeq - relaySeq`, signed.
    pub gap: Option<i64>,
    /// When our event at the relay's cursor was sequenced.
    pub relay_cursor_at: Option<String>,
    /// A short reason when the relay is unreachable or has not crawled us.
    pub detail: Option<String>,
    pub checked_at: String,
}

/// What the relay's `getHostStatus` answered for our hostname.
#[derive(Debug)]
pub enum RelayReport {
    Found { seq: Option<u64>, account_count: Option<u64>, status: Option<String> },
    NotFound,
    Unreachable(String),
}

/// The readout when no crawler is configured (federation is off): nothing was polled.
pub fn no_relay_readout(pds_head_seq: u64, checked_at: String) -> (r: RelayStatusResponse)
    ensures
        r.relay_host is None,
        !r.reachable,
        r.relay_status is None,
        r.relay_seq is None,
        r.account_count is None,
        r.pds_head_seq == pds_head_seq,
        r.gap is None,
        r.relay_cursor_at is None,
        r.detail matches Some(d) && d@ == "no relay configured"@,
        r.checked_at@ == checked_at@,
{
    RelayStatusResponse {
        relay_host: None,
        reachable: false,
        relay_status: None,
        relay_seq: None,
        account_count: None,
        pds_head_seq,
        gap: None,
        relay_cursor_at: None,
        detail: Some(owned("no relay configured")),
        checked_at,
    }
}

/// The signed gap between our head and the relay's cursor, each read as a signed 64-bit number
/// (as `u64 as i64` converts it).
pub open spec fn gap_spec(head: u64, relay_seq: u64) -> int {
    (head as i64) as int - (relay_seq as i64) as int
}

/// How far the relay's cursor trails our head; `None` without a cursor.
pub fn relay_gap(head: u64, relay_seq: Option<u64>) -> (g: Option<i64>)
    requires
        relay_seq is Some ==> i64::MIN <= gap_spec(head, relay_seq->0) <= i64::MAX,
    ensures
        match relay_seq {
            Some(rs) => g == Some(gap_spec(head, rs) as i64),
            None => g is None,
        },
{
    match relay_seq {
        Some(rs) => Some(head as i64 - rs as i64),
        None => None,
    }
}

/// The cursor whose sequencing time is looked up: only a positive one (a cursor of 0 has no row).
pub fn cursor_to_look_up(relay_seq: Option<u64>) -> (r: Option<u64>)
    ensures
        match relay_seq {
            Some(rs) if rs > 0 => r == Some(rs),
            _ => r is None,
        },
{
    match relay_seq {
        Some(rs) => if rs > 0 {
            Some(rs)
        } else {
            None
        },
        None => None,
    }
}

/// The cursor's sequencing time; a failed read degrades to none rather than failing the readout.
pub fn cursor_time(lookup: Result<Option<String>, ()>) -> (r: Option<String>)
    ensures
        match lookup {
            Ok(Some(t)) => r matches Some(v) && v@ == t@,
            _ => r is None,
        },
{
    match lookup {
        Ok(v) => v,
        Err(_) => None,
    }
}

/// The readout of a polled relay: reachability, status, cursor and count straight from its
/// report, with a reason when it has not crawled us or could not be reached. `relay_cursor_at` is
/// the looked-up time of the relay's cursor; it only applies when the relay reported one.
pub fn relay_readout(
    relay_host: String,
    report: RelayReport,
    pds_head_seq: u64,
    relay_cursor_at: Option<String>,
    checked_at: String,
) -> (r: RelayStatusResponse)
    requires
        report matches RelayReport::Found { seq: Some(rs), .. } ==> i64::MIN <= gap_spec(pds_head_seq, rs)
            <= i64::MAX,
    ensures
        r.relay_host matches Some(h) && h@ == relay_host@,
        r.pds_head_seq == pds_head_seq,
        r.checked_at@ == checked_at@,
        match report {
            RelayReport::Found { seq, account_count, status } => {
                &&& r.reachable
                &&& r.relay_status == status
                &&& r.relay_seq == seq
                &&& r.account_count == account_count
                &&& r.detail is None
                &&& r.gap == (match seq {
                    Some(rs) => Some(gap_spec(pds_head_seq, rs) as i64),
                    None => None::<i64>,
                })
                &&& r.relay_cursor_at == relay_cursor_at
            },
            RelayReport::NotFound => {
                &&& r.reachable
                &&& r.relay_status is None
                &&& r.relay_seq is None
                &&& r.account_count is None
                &&& r.gap is None
                &&& r.relay_cursor_at is None
                &&& r.detail matches Some(d) && d@ == "relay has not crawled this host"@
            },
            RelayReport::Unreachable(reason) => {
                &&& !r.reachable
                &&& r.relay_status is None
                &&& r.relay_seq is None
                &&& r.account_count is None
                &&& r.gap is None
                &&& r.relay_cursor_at is None
                &&& r.detail == Some(reason)
            },
        },
{
    let (reachable, relay_status, relay_seq, account_count, detail) = match report {
        RelayReport::Found { seq, account_count, status } => (true, status, seq, account_count, None),
        RelayReport::NotFound => (true, None, None, None, Some(owned("relay has not crawled this host"))),
        RelayReport::Unreachable(reason) => (false, None, None, None, Some(reason)),
    };
    let gap = relay_gap(pds_head_seq, relay_seq);
    let relay_cursor_at = if reachable && detail.is_none() {
        relay_cursor_at
    } else {
        None
    };
    RelayStatusResponse {
        relay_host: Some(relay_host),
        reachable,
        relay_status,
        relay_seq,
        account_count,
        pds_head_seq,
        gap,
        relay_cursor_at,
        detail,
        checked_at,
    }
}


/// For sequence numbers that fit a signed 64-bit number, the gap is exactly how many events the
/// relay's cursor trails our head: positive when it is behind, zero when caught up, negative when
/// its cursor is ahead.
pub proof fn gap_is_head_minus_cursor(head: u64, relay_seq: u64)
    requires
        head <= i64::MAX,
        relay_seq <= i64::MAX,
    ensures
        gap_spec(head, relay_seq) == head - relay_seq,
{
}

} // verus!
