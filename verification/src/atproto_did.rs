//! `GET /.well-known/atproto-did` — the DID of the handle the request's host names, as plain
//! text.

use vstd::prelude::*;
use crate::text::{nth_piece, owned};

verus! {

/// The handle a host names: the host without any port (`host.split(':').next()`).
pub open spec fn handle_of_host(host: Seq<char>) -> Seq<char> {
    nth_piece(host, ':', 0)->0
}

/// The handle a host names.
pub fn handle_for_host(host: &str) -> (r: String)
    ensures
        nth_piece(host@, ':', 0) == Some(r@),
        r@ == handle_of_host(host@),
{
    match crate::text::split_once_char(host, ':') {
        Some((head, _port)) => head,
        None => owned(host),
    }
}

/// The answer to a well-known DID lookup.
#[derive(Debug)]
pub enum WellKnownAnswer {
    /// No host at all: nothing to resolve (400).
    NoHost,
    /// 200 `text/plain` with the DID.
    Did(String),
    /// The host is not a registered handle (404).
    NotFound,
}

/// The answer once the handle was looked up (`host_present`: the request named a host at all).
pub fn well_known_answer(host_present: bool, resolved: Option<String>) -> (r: WellKnownAnswer)
    ensures
        !host_present ==> r is NoHost,
        host_present ==> match resolved {
            Some(d) => r matches WellKnownAnswer::Did(v) && v@ == d@,
            None => r is NotFound,
        },
{
    if !host_present {
        return WellKnownAnswer::NoHost;
    }
    match resolved {
        Some(d) => WellKnownAnswer::Did(d),
        None => WellKnownAnswer::NotFound,
    }
}

} // verus!
