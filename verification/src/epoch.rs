//! Epoch numbering: fixed-length accounting periods over unix time.

use vstd::prelude::*;

verus! {

/// Length of one accounting period, in seconds.
pub const EPOCH_LENGTH: i64 = 60 * 60 * 24;

/// The epoch a timestamp falls in: `ts / EPOCH_LENGTH`, floor division.
pub open spec fn spec_current_epoch(ts: int) -> int {
    ts / (EPOCH_LENGTH as int)
}

/// Number of the epoch that is open at time `ts`.
pub fn current_epoch(ts: i64) -> (e: u64)
    requires
        0 <= ts,
    ensures
        e == spec_current_epoch(ts as int),
{
    (ts as u64) / (EPOCH_LENGTH as u64)
}

} // verus!
