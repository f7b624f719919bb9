//! Reading the current instant for the timestamps the routes compute.

use vstd::prelude::*;
use crate::boundary::{chrono_max_secs, system_unix_time};

verus! {

/// The instant a clock reading names, as Unix seconds and sub-second nanoseconds: `None` for a
/// clock before the epoch or past chrono's latest date, which no timestamp can be built from.
pub fn instant_of_reading(reading: Option<(u64, u32)>) -> (r: Option<(i64, u32)>)
    requires
        reading matches Some(t) ==> t.1 < 1_000_000_000,
    ensures
        match reading {
            None => r is None,
            Some(t) => if t.0 <= chrono_max_secs() {
                r == Some((t.0 as i64, t.1))
            } else {
                r is None
            },
        },
{
    match reading {
        None => None,
        Some(t) => {
            if t.0 <= 8210266876799 {
                Some((t.0 as i64, t.1))
            } else {
                None
            }
        },
    }
}

/// The current instant, when the clock reads between the Unix epoch and chrono's latest date.
/// The clock decides the value; every instant returned lies in that range.
pub fn now_instant() -> (r: Option<(i64, u32)>)
    ensures
        r matches Some(t) ==> 0 <= t.0 <= chrono_max_secs() && t.1 < 1_000_000_000,
{
    instant_of_reading(system_unix_time())
}

} // verus!
