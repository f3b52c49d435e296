//! Poll cadence: how long the monitoring loop sleeps between battery reads.

use vstd::prelude::*;

verus! {

/// Seconds to wait after a cycle that raised an alert: poll again quickly so
/// the alert reflects what the user just did about it.
pub const ALERT_SLEEP_SECS: u64 = 2;

/// Seconds to wait after a quiet cycle: poll rarely to keep overhead low.
pub const IDLE_SLEEP_SECS: u64 = 120;

/// The sleep the loop owes after a cycle, from the cycle's alert decision.
pub open spec fn sleep_duration(notified: bool) -> int {
    if notified {
        ALERT_SLEEP_SECS as int
    } else {
        IDLE_SLEEP_SECS as int
    }
}

/// Picks the next sleep in seconds: short right after an alert, long otherwise.
pub fn sleep_secs(notified: bool) -> (d: u64)
    ensures
        d as int == sleep_duration(notified),
{
    if notified {
        ALERT_SLEEP_SECS
    } else {
        IDLE_SLEEP_SECS
    }
}

} // verus!
