//! Forwarding `app.bsky.*` XRPC requests to the configured AppView: the caller's authorization
//! and content type pass through, the `atproto-proxy` header names the AppView's service DID, and
//! the AppView's answer (errors included) comes back verbatim; only failing to reach it is a 503.

use vstd::prelude::*;
use crate::error::{ApiError, ErrorCode, fails_with, is_api_error};
use crate::text::{owned, push_str};

verus! {

/// The largest request body forwarded (1 MiB): `app.bsky.*` procedures carry small JSON.
pub const MAX_PROXY_BODY: usize = 1048576;

/// The AppView URL a request for `nsid` goes to: `{appview}/xrpc/{nsid}`, with the incoming query
/// string kept verbatim after a `?`.
pub open spec fn proxy_target_spec(appview_url: Seq<char>, nsid: Seq<char>, query: Option<Seq<char>>) -> Seq<char> {
    appview_url + "/xrpc/"@ + nsid + match query {
        Some(q) => seq!['?'] + q,
        None => Seq::<char>::empty(),
    }
}

/// The AppView URL a request for `nsid` goes to.
pub fn proxy_target(appview_url: &str, nsid: &str, query: Option<&str>) -> (r: String)
    ensures
        r@ == proxy_target_spec(appview_url@, nsid@, match query {
            Some(q) => Some(q@),
            None => None,
        }),
{
    let mut t = owned(appview_url);
    push_str(&mut t, "/xrpc/");
    push_str(&mut t, nsid);
    proof {
        reveal_strlit("?");
    }
    match query {
        Some(q) => {
            push_str(&mut t, "?");
            push_str(&mut t, q);
            assert(t@ =~= appview_url@ + "/xrpc/"@ + nsid@ + (seq!['?'] + q@));
        },
        None => {
            assert(t@ =~= appview_url@ + "/xrpc/"@ + nsid@ + Seq::<char>::empty());
        },
    }
    t
}

/// A body larger than the limit is refused rather than buffered.
pub fn check_body_size(len: usize) -> (r: Result<(), ApiError>)
    ensures
        len <= MAX_PROXY_BODY ==> r is Ok,
        len > MAX_PROXY_BODY ==> fails_with(r, ErrorCode::PayloadTooLarge, "request body exceeds the AppView proxy limit"@),
{
    if len > MAX_PROXY_BODY {
        Err(ApiError::new(ErrorCode::PayloadTooLarge, "request body exceeds the AppView proxy limit"))
    } else {
        Ok(())
    }
}

/// The headers of the forwarded request, in order: the caller's `authorization` and
/// `content-type` when present (host, length and connection are hop-by-hop and dropped), then
/// `atproto-proxy` with the AppView's service DID.
pub fn outbound_headers(authorization: Option<String>, content_type: Option<String>, appview_did: &str) -> (r: Vec<(String, String)>)
    ensures
        r@.len() == (if authorization is Some { 1int } else { 0int }) + (if content_type is Some { 1int } else { 0int }) + 1,
        authorization is Some ==> r@[0].0@ == "authorization"@ && r@[0].1@ == authorization->0@,
        content_type is Some ==> r@[r@.len() - 2].0@ == "content-type"@ && r@[r@.len() - 2].1@ == content_type->0@,
        r@.last().0@ == "atproto-proxy"@,
        r@.last().1@ == appview_did@,
{
    let mut out: Vec<(String, String)> = Vec::new();
    match authorization {
        Some(a) => out.push((owned("authorization"), a)),
        None => {},
    }
    match content_type {
        Some(c) => out.push((owned("content-type"), c)),
        None => {},
    }
    out.push((owned("atproto-proxy"), owned(appview_did)));
    out
}

/// An empty body is not forwarded at all.
pub fn forwards_body(len: usize) -> (r: bool)
    ensures
        r == (len > 0),
{
    len > 0
}

/// Failing to reach the AppView (an AppView error answer is passed through instead).
pub fn unreachable_error() -> (e: ApiError)
    ensures
        is_api_error(e, ErrorCode::ServiceUnavailable, "failed to reach the AppView"@),
{
    ApiError::new(ErrorCode::ServiceUnavailable, "failed to reach the AppView")
}

/// Failing to build the streamed answer.
pub fn response_build_error() -> (e: ApiError)
    ensures
        is_api_error(e, ErrorCode::InternalError, "proxy response build failed"@),
{
    ApiError::new(ErrorCode::InternalError, "proxy response build failed")
}

/// The status answered with: the AppView's own when it is a valid HTTP status code (100 to
/// 999), else 502.
pub fn relayed_status(upstream: u16) -> (s: u16)
    ensures
        100 <= upstream < 1000 ==> s == upstream,
        !(100 <= upstream < 1000) ==> s == 502,
{
    if upstream >= 100 && upstream < 1000 {
        upstream
    } else {
        502
    }
}

} // verus!
