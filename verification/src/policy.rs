//! The reconnect policy: whether to try again after a failed session, and
//! how long to wait first.

use vstd::prelude::*;

verus! {

/// What the policy orders after a failure.
#[derive(Debug, Clone, Copy, PartialEq, Eq, Structural)]
pub enum ReconnectDecision {
    /// Wait `delay_secs` seconds, then connect again.
    Retry { delay_secs: u64 },
    /// The configured number of attempts is used up: stop for good.
    GiveUp,
}

/// A fixed-delay reconnect policy with an optional cap on attempts.
#[derive(Debug, Clone, Copy, PartialEq, Eq, Structural)]
pub struct ReconnectPolicy {
    /// The most reconnect attempts made in a row; 0 lifts the cap.
    pub max_attempts: u32,
    /// The wait before each attempt, in seconds.
    pub base_delay_secs: u64,
}

impl ReconnectPolicy {
    /// The cap is set and `attempt_count` attempts have reached it.
    pub open spec fn exhausted(self, attempt_count: u32) -> bool {
        self.max_attempts > 0 && attempt_count >= self.max_attempts
    }

    /// The decision for a failure that follows `attempt_count` reconnect
    /// attempts.
    pub open spec fn decision(self, attempt_count: u32) -> ReconnectDecision {
        if self.exhausted(attempt_count) {
            ReconnectDecision::GiveUp
        } else {
            ReconnectDecision::Retry { delay_secs: self.base_delay_secs }
        }
    }

    pub fn new(max_attempts: u32, base_delay_secs: u64) -> (policy: Self)
        ensures
            policy.max_attempts == max_attempts,
            policy.base_delay_secs == base_delay_secs,
    {
        ReconnectPolicy { max_attempts, base_delay_secs }
    }

    /// Decides what follows a failure, given how many reconnect attempts were
    /// already made since the last session that reached listening.
    pub fn decide(&self, attempt_count: u32) -> (decision: ReconnectDecision)
        ensures
            decision == self.decision(attempt_count),
    {
        if self.max_attempts > 0 && attempt_count >= self.max_attempts {
            ReconnectDecision::GiveUp
        } else {
            ReconnectDecision::Retry { delay_secs: self.base_delay_secs }
        }
    }
}

} // verus!
