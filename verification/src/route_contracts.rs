//! The answers a route owes because of the kind of route it is (a missing credential is a 401,
//! whatever the route does), described as a table of routes. Each row names the route, what it
//! accepts as proof of the caller, and the error names it pins.

use vstd::prelude::*;
use crate::text::{owned, push_str};

verus! {

/// What a route accepts as proof of who is calling.
#[derive(Clone, Copy, Debug, PartialEq, Eq, Structural)]
pub enum Guard {
    /// A session access token; a refresh-scoped token is refused.
    Access,
    /// The refresh token itself.
    Refresh,
    /// The operator admin token.
    Admin,
}

/// One route of the contract table.
#[derive(Debug)]
pub struct AuthedRoute {
    pub method: &'static str,
    pub path: &'static str,
    /// `(content-type, payload)`, or none for an empty body.
    pub body: Option<(&'static str, &'static str)>,
    pub guard: Guard,
    /// The error name the route pins when the credential is absent, where it pins one.
    pub missing_auth_error: Option<&'static str>,
    /// The error name an access-guarded route pins for a refresh-scoped token, where it pins one.
    pub refresh_scope_error: Option<&'static str>,
}

impl AuthedRoute {
    /// How a row is named in a failure: `METHOD path`.
    pub fn label(&self) -> (r: String)
        ensures
            r@ == self.method@ + " "@ + self.path@,
    {
        let mut s = owned(self.method);
        push_str(&mut s, " ");
        push_str(&mut s, self.path);
        s
    }
}

} // verus!
