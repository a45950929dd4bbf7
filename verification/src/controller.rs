//! Retry loop controller: status inspection, the per-response decision, and
//! the schedule the whole loop produces for a given trace of responses.
//!
//! The loop itself alternates outside work (sending a copy of the request,
//! suspending) with decisions. The decisions are verified here as pure
//! functions of the policy, the retry state and the observed response; the
//! surrounding client performs the sends and sleeps and feeds each observed
//! response back in.

use vstd::prelude::*;

use crate::parse::hint_delay;
use crate::parse::parse_retry_after;
use crate::policy::RetryAfter;
use crate::policy::RetryState;
use crate::policy::accepts;
use crate::policy::check_and_commit;
use crate::policy::committed;

verus! {

/// The fixed set of response status codes eligible for retry handling:
/// 301 Moved Permanently, 429 Too Many Requests, 503 Service Unavailable.
/// A response with any other status is never retried, regardless of headers.
pub open spec fn spec_retryable_status(status: u16) -> bool {
    status == 301 || status == 429 || status == 503
}

/// Whether `status` is in the retryable status set.
pub fn is_retryable_status(status: u16) -> (r: bool)
    ensures
        r == spec_retryable_status(status),
{
    status == 301 || status == 429 || status == 503
}

/// What the retry loop observes of one response: its status code and the raw
/// value of its `Retry-After` header, if that header is present (the last
/// value, if it repeats).
pub struct ResponseInfo {
    pub status: u16,
    pub retry_after: Option<String>,
}

impl ResponseInfo {
    /// The observed header characters, if the header is present.
    pub open spec fn header_seq(self) -> Option<Seq<char>> {
        match self.retry_after {
            Some(s) => Some(s@),
            None => None,
        }
    }
}

/// The view of an observed header handed in by reference.
pub open spec fn opt_str_view(h: Option<&str>) -> Option<Seq<char>> {
    match h {
        Some(s) => Some(s@),
        None => None,
    }
}

/// The controller's decision for one observed response: `Some(d)` means a
/// wait of `d` seconds is honored and the request resent; `None` means the
/// loop stops and defers to the next pipeline stage. The loop stops when the
/// status is not retryable, when the header is absent, when the header is
/// unparsable, or when the parsed delay exceeds a bound.
pub open spec fn decision(
    policy: RetryAfter,
    state: RetryState,
    status: u16,
    header: Option<Seq<char>>,
    now: int,
) -> Option<int> {
    if !spec_retryable_status(status) {
        None
    } else {
        match header {
            None => None,
            Some(h) => match hint_delay(h, now) {
                None => None,
                Some(d) => if accepts(policy, state, d) {
                    Some(d)
                } else {
                    None
                },
            },
        }
    }
}

/// The action the retry loop takes after inspecting one response.
#[derive(Clone, Copy, Debug, PartialEq, Eq, Structural)]
pub enum RetryDecision {
    /// Suspend for this many seconds, then resend the request.
    Wait(u64),
    /// Stop retrying; hand the original request to the next pipeline stage.
    Stop,
}

/// One step of the retry loop controller, run after a response has been
/// received: inspect the status, parse the header at current time
/// `now_unix`, check the bounds, and either commit the accepted wait to the
/// state or stop. A rejected or absent delay leaves the state unchanged, so
/// an over-budget delay never consumes an attempt and never causes a wait.
///
/// The caller must still have an attempt available: the loop condition
/// `attempts_used < attempts` is checked before each send.
pub fn next_step(
    policy: &RetryAfter,
    state: &mut RetryState,
    status: u16,
    retry_after: Option<&str>,
    now_unix: i64,
) -> (d: RetryDecision)
    requires
        old(state).wf(*policy),
        old(state).attempts_used < policy.attempts,
    ensures
        final(state).wf(*policy),
        match decision(*policy, *old(state), status, opt_str_view(retry_after), now_unix as int) {
            Some(del) => d == RetryDecision::Wait(del as u64) && *final(state) == committed(
                *old(state),
                del,
            ),
            None => d == RetryDecision::Stop && *final(state) == *old(state),
        },
{
    if !is_retryable_status(status) {
        return RetryDecision::Stop;
    }
    match retry_after {
        None => RetryDecision::Stop,
        Some(h) => {
            match parse_retry_after(h, now_unix) {
                None => RetryDecision::Stop,
                Some(delay_sec) => {
                    if check_and_commit(policy, state, delay_sec) {
                        RetryDecision::Wait(delay_sec)
                    } else {
                        RetryDecision::Stop
                    }
                },
            }
        },
    }
}

/// The loop condition: whether the attempt bound still permits a resend.
pub fn can_attempt(policy: &RetryAfter, state: &RetryState) -> (r: bool)
    ensures
        r == (state.attempts_used < policy.attempts),
{
    state.attempts_used < policy.attempts
}

/// The state a fresh invocation starts from: both counters zero.
pub open spec fn initial_state() -> RetryState {
    RetryState { attempts_used: 0, accumulated_delay_sec: 0 }
}

/// What the whole retry loop does, starting from `state`, when the
/// successive sends observe the responses of `responses` in order: the waits
/// it honors (in order), the final retry state, and how many sends it makes.
/// Each iteration sends once; a stopping decision ends the loop after that
/// send, and an exhausted attempt bound ends it before any further send.
pub open spec fn schedule_model(
    policy: RetryAfter,
    state: RetryState,
    responses: Seq<ResponseInfo>,
    now: int,
) -> (Seq<int>, RetryState, int)
    decreases responses.len(),
{
    if state.attempts_used >= policy.attempts || responses.len() == 0 {
        (Seq::<int>::empty(), state, 0)
    } else {
        let resp = responses[0];
        match decision(policy, state, resp.status, resp.header_seq(), now) {
            None => (Seq::<int>::empty(), state, 1),
            Some(d) => {
                let rest = schedule_model(policy, committed(state, d), responses.drop_first(), now);
                (seq![d] + rest.0, rest.1, 1 + rest.2)
            },
        }
    }
}

/// The waits of a schedule as mathematical integers.
pub open spec fn delays_view(v: Seq<u64>) -> Seq<int> {
    v.map_values(|x: u64| x as int)
}

/// Replay the retry loop over a trace of observed responses, from a fresh
/// state: returns the honored waits in order, the final retry state, and the
/// number of sends made. This is the retry loop run without its outside work
/// — the caller learns exactly which suspensions would occur.
pub fn run_schedule(policy: &RetryAfter, responses: &Vec<ResponseInfo>, now_unix: i64) -> (out: (
    Vec<u64>,
    RetryState,
    usize,
))
    ensures
        ({
            let m = schedule_model(*policy, initial_state(), responses@, now_unix as int);
            &&& delays_view(out.0@) == m.0
            &&& out.1 == m.1
            &&& out.2 as int == m.2
        }),
{
    let ghost m_full = schedule_model(*policy, initial_state(), responses@, now_unix as int);
    let mut state = RetryState::new();
    let mut delays: Vec<u64> = Vec::new();
    let mut sends: usize = 0;
    let mut stopped: bool = false;
    let mut i: usize = 0;
    proof {
        assert(responses@.skip(0) =~= responses@);
        assert(delays_view(delays@) =~= Seq::<int>::empty());
        assert(state == initial_state());
        assert(delays_view(delays@) + m_full.0 =~= m_full.0);
    }
    while !stopped && i < responses.len() && state.attempts_used < policy.attempts
        invariant
            m_full == schedule_model(*policy, initial_state(), responses@, now_unix as int),
            state.wf(*policy),
            i <= responses@.len(),
            delays@.len() == i,
            sends == if stopped {
                i + 1
            } else {
                i as int
            },
            !stopped ==> ({
                let m_rest = schedule_model(*policy, state, responses@.skip(i as int), now_unix as int);
                &&& m_full.0 == delays_view(delays@) + m_rest.0
                &&& m_full.1 == m_rest.1
                &&& m_full.2 == i + m_rest.2
            }),
            stopped ==> ({
                &&& m_full.0 == delays_view(delays@)
                &&& m_full.1 == state
                &&& m_full.2 == sends
            }),
        decreases responses@.len() - i + if stopped {
            0int
        } else {
            1int
        },
    {
        sends = sends + 1;
        let ghost pre_state = state;
        let ghost tail = responses@.skip(i as int);
        proof {
            assert(tail.len() > 0);
            assert(tail[0] == responses@[i as int]);
            assert(tail.drop_first() =~= responses@.skip(i as int + 1));
        }
        let resp: &ResponseInfo = &responses[i];
        let header: Option<&str> = match &resp.retry_after {
            Some(h) => Some(h.as_str()),
            None => None,
        };
        proof {
            assert(opt_str_view(header) == resp.header_seq());
        }
        let d = next_step(policy, &mut state, resp.status, header, now_unix);
        match d {
            RetryDecision::Wait(delay_sec) => {
                proof {
                    let dec = decision(
                        *policy,
                        pre_state,
                        resp.status,
                        resp.header_seq(),
                        now_unix as int,
                    );
                    assert(dec matches Some(del) && delay_sec == del as u64 && state == committed(
                        pre_state,
                        del,
                    ));
                    let m_rest = schedule_model(*policy, pre_state, tail, now_unix as int);
                    let m_next = schedule_model(
                        *policy,
                        state,
                        responses@.skip(i as int + 1),
                        now_unix as int,
                    );
                    assert(m_rest.0 == seq![dec->0] + m_next.0);
                    assert(delays_view(delays@.push(delay_sec)) =~= delays_view(delays@).push(
                        dec->0,
                    ));
                    assert(delays_view(delays@.push(delay_sec)) + m_next.0 =~= delays_view(delays@)
                        + m_rest.0);
                }
                delays.push(delay_sec);
                i = i + 1;
            },
            RetryDecision::Stop => {
                proof {
                    let m_rest = schedule_model(*policy, pre_state, tail, now_unix as int);
                    assert(m_rest.0 =~= Seq::<int>::empty());
                    assert(delays_view(delays@) + m_rest.0 =~= delays_view(delays@));
                }
                stopped = true;
            },
        }
    }
    proof {
        if !stopped {
            let m_rest = schedule_model(*policy, state, responses@.skip(i as int), now_unix as int);
            assert(responses@.skip(i as int).len() == responses@.len() - i);
            assert(m_rest == (Seq::<int>::empty(), state, 0int));
            assert(delays_view(delays@) + m_rest.0 =~= delays_view(delays@));
        }
    }
    (delays, state, sends)
}

proof fn lemma_schedule_bounds(
    policy: RetryAfter,
    state: RetryState,
    responses: Seq<ResponseInfo>,
    now: int,
)
    requires
        state.wf(policy),
    ensures
        ({
            let m = schedule_model(policy, state, responses, now);
            &&& m.1.wf(policy)
            &&& forall|j: int|
                0 <= j < m.0.len() ==> 0 <= #[trigger] m.0[j] <= policy.max_delay_sec
        }),
    decreases responses.len(),
{
    let m = schedule_model(policy, state, responses, now);
    if state.attempts_used < policy.attempts && responses.len() > 0 {
        let resp = responses[0];
        match decision(policy, state, resp.status, resp.header_seq(), now) {
            None => {},
            Some(d) => {
                assert(accepts(policy, state, d));
                assert(committed(state, d).wf(policy));
                lemma_schedule_bounds(policy, committed(state, d), responses.drop_first(), now);
                let rest = schedule_model(policy, committed(state, d), responses.drop_first(), now);
                assert(forall|j: int| 1 <= j < m.0.len() ==> #[trigger] m.0[j] == rest.0[j - 1]);
                assert(m.0[0] == d);
            },
        }
    }
}

/// Law: for every configuration and every trace of observed responses, the
/// number of attempts used never exceeds the configured attempt bound.
/// Starting from any state that respects the bound — in particular the fresh
/// one — the state the loop ends in still respects it; since every
/// intermediate state is the final state of a shorter trace, the bound holds
/// throughout.
pub proof fn lemma_attempts_never_exceed_bound(
    policy: RetryAfter,
    state: RetryState,
    responses: Seq<ResponseInfo>,
    now: int,
)
    requires
        state.wf(policy),
    ensures
        schedule_model(policy, state, responses, now).1.attempts_used <= policy.attempts,
{
    lemma_schedule_bounds(policy, state, responses, now);
}

/// Law: no single honored wait exceeds the per-attempt cap, no honored wait
/// is negative, and the accumulated waiting never exceeds the cumulative
/// deadline.
pub proof fn lemma_delays_within_bounds(
    policy: RetryAfter,
    state: RetryState,
    responses: Seq<ResponseInfo>,
    now: int,
)
    requires
        state.wf(policy),
    ensures
        ({
            let m = schedule_model(policy, state, responses, now);
            &&& forall|j: int|
                0 <= j < m.0.len() ==> 0 <= #[trigger] m.0[j] <= policy.max_delay_sec
            &&& m.1.accumulated_delay_sec <= policy.deadline_sec
        }),
{
    lemma_schedule_bounds(policy, state, responses, now);
}

/// Law: a response whose status is not retryable — status 200, say — stops
/// the loop at once, whatever headers it carries: no suspension is honored,
/// and control passes to the next stage after the one send that received it.
pub proof fn lemma_non_retryable_stops_immediately(
    policy: RetryAfter,
    responses: Seq<ResponseInfo>,
    now: int,
)
    requires
        responses.len() > 0,
        !spec_retryable_status(responses[0].status),
    ensures
        schedule_model(policy, initial_state(), responses, now).0.len() == 0,
        schedule_model(policy, initial_state(), responses, now).2 <= 1,
        policy.attempts > 0 ==> schedule_model(policy, initial_state(), responses, now).2 == 1,
{
}

} // verus!
