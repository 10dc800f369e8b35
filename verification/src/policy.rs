//! The retry policy: how long to keep trying, and how often.

use vstd::prelude::*;

verus! {

/// Time budget for repeating one command, in milliseconds.
pub const RETRY_WINDOW_MS: u64 = 2000;

/// Pause before each attempt, in milliseconds.
pub const POLL_INTERVAL_MS: u64 = 100;

/// A bounded retry at a fixed rate.
///
/// Every failure of the remote call is retried alike; the policy knows no
/// kinds of error. All values are valid: a zero window allows no attempt at
/// all, a zero interval polls without pause.
#[derive(Clone, Copy, Debug, PartialEq, Eq, Structural)]
pub struct RetryPolicy {
    /// Wall-clock budget for all attempts of one command, in milliseconds.
    pub window_ms: u64,
    /// Fixed delay slept before each attempt, in milliseconds.
    pub poll_interval_ms: u64,
}

impl RetryPolicy {
    /// The budget is used up once the time elapsed since the start has
    /// reached the window.
    pub open spec fn spec_expired(self, elapsed_ms: int) -> bool {
        elapsed_ms >= self.window_ms
    }

    /// A policy with the given window and poll interval.
    pub fn new(window_ms: u64, poll_interval_ms: u64) -> (policy: RetryPolicy)
        ensures
            policy.window_ms == window_ms,
            policy.poll_interval_ms == poll_interval_ms,
    {
        RetryPolicy { window_ms, poll_interval_ms }
    }

    /// Whether a clock reading of `elapsed_ms` since the start ends the
    /// retrying.
    pub fn expired(&self, elapsed_ms: u128) -> (gone: bool)
        ensures
            gone == self.spec_expired(elapsed_ms as int),
    {
        elapsed_ms >= self.window_ms as u128
    }
}

impl Default for RetryPolicy {
    /// Two seconds of retrying, one attempt every hundred milliseconds.
    fn default() -> (policy: RetryPolicy)
        ensures
            policy.window_ms == RETRY_WINDOW_MS,
            policy.poll_interval_ms == POLL_INTERVAL_MS,
    {
        RetryPolicy { window_ms: RETRY_WINDOW_MS, poll_interval_ms: POLL_INTERVAL_MS }
    }
}

} // verus!
