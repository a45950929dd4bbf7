//! Retry policy configuration, per-request retry state, and the bound checker.

use vstd::prelude::*;

verus! {

/// A middleware configuration which retries throttled requests up to a fixed
/// number of times, while observing a per-attempt delay cap and a cumulative
/// deadline.
///
/// It reacts to the `Retry-After` header on the response codes
/// 301 Moved Permanently, 429 Too Many Requests and 503 Service Unavailable.
pub struct RetryAfter {
    /// Maximum number of resends for one request.
    pub attempts: u8,
    /// Longest single wait ever honored, in whole seconds.
    pub max_delay_sec: u16,
    /// Longest total wait across all resends of one request, in whole seconds.
    pub deadline_sec: u16,
}

impl RetryAfter {
    /// Create a new instance of the `RetryAfter` middleware configuration,
    /// which retries throttled requests up to as many times as specified and
    /// while observing the individual and cumulative deadlines.
    pub fn new(attempts: u8, max_delay_sec: u16, deadline_sec: u16) -> (r: Self)
        ensures
            r.attempts == attempts,
            r.max_delay_sec == max_delay_sec,
            r.deadline_sec == deadline_sec,
    {
        RetryAfter {
            attempts,
            max_delay_sec,
            deadline_sec,
        }
    }
}

impl Default for RetryAfter {
    /// Create a new instance with the default bounds: three attempts, a
    /// 30 second per-attempt cap and a 60 second cumulative deadline.
    fn default() -> (r: Self)
        ensures
            r.attempts == 3,
            r.max_delay_sec == 30,
            r.deadline_sec == 60,
    {
        Self {
            attempts: 3,
            max_delay_sec: 30,
            deadline_sec: 60,
        }
    }
}

/// Mutable state scoped to the processing of one request: how many resends
/// were made and how much waiting was accumulated. Discarded once the retry
/// loop ends; no state survives across distinct requests.
pub struct RetryState {
    /// Number of accepted (committed) retry attempts so far.
    pub attempts_used: u8,
    /// Total accepted waiting so far, in whole seconds.
    pub accumulated_delay_sec: u64,
}

impl RetryState {
    /// The state invariant maintained by the retry loop: the attempt counter
    /// never exceeds the configured attempt bound, and the accumulated delay
    /// never exceeds the cumulative deadline.
    pub open spec fn wf(self, policy: RetryAfter) -> bool {
        &&& self.attempts_used <= policy.attempts
        &&& self.accumulated_delay_sec <= policy.deadline_sec
    }

    /// Fresh state at the start of processing one request: both counters zero.
    pub fn new() -> (r: Self)
        ensures
            r.attempts_used == 0,
            r.accumulated_delay_sec == 0,
    {
        RetryState {
            attempts_used: 0,
            accumulated_delay_sec: 0,
        }
    }
}

/// Whether the bound checker honors a candidate delay of `delay_sec` seconds
/// in state `state`: a single wait over the per-attempt cap is never honored,
/// and neither is one that would push the accumulated total over the deadline.
pub open spec fn accepts(policy: RetryAfter, state: RetryState, delay_sec: int) -> bool {
    &&& delay_sec <= policy.max_delay_sec
    &&& state.accumulated_delay_sec + delay_sec <= policy.deadline_sec
}

/// The state after a delay of `delay_sec` seconds is accepted: the delay is
/// added to the accumulated total and one more attempt is recorded.
pub open spec fn committed(state: RetryState, delay_sec: int) -> RetryState {
    RetryState {
        attempts_used: (state.attempts_used + 1) as u8,
        accumulated_delay_sec: (state.accumulated_delay_sec + delay_sec) as u64,
    }
}

/// Bound checker: given a candidate delay and the current retry state, decide
/// whether to honor it. On acceptance the delay is committed to the state; on
/// rejection the state is left unchanged, so an over-budget delay never causes
/// a wait and never consumes an attempt.
pub fn check_and_commit(policy: &RetryAfter, state: &mut RetryState, delay_sec: u64) -> (accepted:
    bool)
    requires
        old(state).wf(*policy),
        old(state).attempts_used < policy.attempts,
    ensures
        accepted == accepts(*policy, *old(state), delay_sec as int),
        accepted ==> *final(state) == committed(*old(state), delay_sec as int),
        !accepted ==> *final(state) == *old(state),
        final(state).wf(*policy),
{
    if delay_sec > policy.max_delay_sec as u64 {
        return false;
    }
    let new_accumulated: u64 = state.accumulated_delay_sec + delay_sec;
    if new_accumulated > policy.deadline_sec as u64 {
        return false;
    }
    state.accumulated_delay_sec = new_accumulated;
    state.attempts_used = state.attempts_used + 1;
    true
}

} // verus!
