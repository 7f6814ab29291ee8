//! The health monitor: prolonged silence on a live session counts as a
//! failure.

use vstd::prelude::*;

verus! {

/// How many check intervals of silence a session is allowed.
pub const SILENCE_INTERVALS: u64 = 3;

/// The silence since `last_message`, at `now`, is longer than three check
/// intervals. Times are in milliseconds, the interval in seconds. With no
/// message time to measure from there is no silence.
pub open spec fn silence_exceeded(
    last_message: Option<u64>,
    now: u64,
    check_interval_secs: u64,
) -> bool {
    match last_message {
        Some(last) => now - last > SILENCE_INTERVALS * check_interval_secs * 1000,
        None => false,
    }
}

/// Whether the session has been silent for too long.
pub fn is_stale(last_message: Option<u64>, now: u64, check_interval_secs: u64) -> (stale: bool)
    ensures
        stale == silence_exceeded(last_message, now, check_interval_secs),
{
    match last_message {
        Some(last) => {
            if now <= last {
                false
            } else {
                let silence: u128 = (now - last) as u128;
                let allowed: u128 = (SILENCE_INTERVALS as u128) * (check_interval_secs as u128)
                    * 1000;
                silence > allowed
            }
        },
        None => false,
    }
}

} // verus!
