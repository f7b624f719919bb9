//! The outcome of an account status transition (activate, deactivate) as the accounts table
//! reports it.

use vstd::prelude::*;

verus! {

/// What a status transition changed: the row moved to the new state, it was already there, or
/// there is no such account.
#[derive(Clone, Copy, Debug, PartialEq, Eq, Structural)]
pub enum AccountStateChange {
    Changed,
    Unchanged,
    NotFound,
}

} // verus!
