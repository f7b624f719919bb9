//! `POST /v1/admin/request-crawl` — ask every configured relay to crawl this PDS now, bypassing
//! the automatic rate limit, and report which relays accepted. The acting admin and the tally are
//! audited.

use vstd::prelude::*;
use crate::error::{ApiError, ErrorCode, fails_with};
use crate::paging::{decimal_string, u64_to_string};
use crate::text::{owned, push_str};

verus! {

/// The per-relay report. `A` is one relay's attempt, carried through as reported.
#[derive(Debug)]
pub struct RequestCrawlResponse<A> {
    pub requested: usize,
    pub accepted: usize,
    pub relays: Vec<A>,
}

/// With no relay configured there is nothing to crawl: a 400 is clearer than a report of none.
pub fn require_relays(configured: usize) -> (r: Result<(), ApiError>)
    ensures
        configured > 0 ==> r is Ok,
        configured == 0 ==> fails_with(r, ErrorCode::InvalidRequest, "no relay is configured to crawl this server"@),
{
    if configured == 0 {
        Err(ApiError::new(ErrorCode::InvalidRequest, "no relay is configured to crawl this server"))
    } else {
        Ok(())
    }
}

/// How many of the attempts were accepted.
pub open spec fn accepted_spec(accepted: Seq<bool>) -> nat
    decreases accepted.len(),
{
    if accepted.len() == 0 {
        0
    } else {
        accepted_spec(accepted.drop_last()) + if accepted.last() { 1nat } else { 0nat }
    }
}

/// The number of relays that accepted, from each attempt's acceptance in order.
pub fn accepted_count(accepted: &[bool]) -> (n: usize)
    ensures
        n == accepted_spec(accepted@),
        n <= accepted@.len(),
{
    let mut n: usize = 0;
    let mut i: usize = 0;
    while i < accepted.len()
        invariant
            i <= accepted@.len(),
            n == accepted_spec(accepted@.take(i as int)),
            n <= i,
        decreases accepted@.len() - i,
    {
        assert(accepted@.take(i + 1).drop_last() =~= accepted@.take(i as int));
        if accepted[i] {
            n = n + 1;
        }
        i = i + 1;
    }
    assert(accepted@.take(accepted@.len() as int) =~= accepted@);
    n
}

/// The audit detail: the compact JSON tally, keys in sorted order.
pub open spec fn crawl_detail_spec(requested: usize, accepted: usize) -> Seq<char> {
    "{\"accepted\":"@ + decimal_string(accepted as int) + ",\"requested\":"@ + decimal_string(requested as int) + "}"@
}

/// The audit detail of a crawl request.
pub fn crawl_detail(requested: usize, accepted: usize) -> (r: String)
    ensures
        r@ == crawl_detail_spec(requested, accepted),
{
    let mut d = owned("{\"accepted\":");
    let a = u64_to_string(accepted as u64);
    push_str(&mut d, a.as_str());
    push_str(&mut d, ",\"requested\":");
    let q = u64_to_string(requested as u64);
    push_str(&mut d, q.as_str());
    push_str(&mut d, "}");
    d
}

/// The report: one attempt per configured relay, in configuration order.
pub fn crawl_report<A>(relays: Vec<A>, accepted: usize) -> (r: RequestCrawlResponse<A>)
    ensures
        r.requested == relays@.len(),
        r.accepted == accepted,
        r.relays@ == relays@,
{
    RequestCrawlResponse { requested: relays.len(), accepted, relays }
}

} // verus!
