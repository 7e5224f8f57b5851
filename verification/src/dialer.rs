//! Backend dialing: bounded retries with capped exponential backoff.
//!
//! After classification the handler dials the chosen backend.  A failed
//! or timed-out attempt is retried after a delay that starts at the
//! policy's base, doubles after each failure, and never exceeds the
//! policy's cap.  Once the configured number of attempts has failed the
//! connection is given up: the client socket is dropped and no relay is
//! started.  The waiting and the TCP connect live in the surrounding
//! binary; this module decides, after every attempt, what the handler
//! does next.

use vstd::prelude::*;

verus! {

/// Retry and backoff configuration, shared by value across connections.
#[derive(Clone, Copy, Debug, PartialEq, Eq, Structural)]
pub struct BackoffPolicy {
    /// Maximum number of dial attempts per connection.
    pub retries: u8,
    /// Delay after the first failed attempt, in milliseconds.
    pub base_delay_ms: u64,
    /// Cap on the delay between attempts, in milliseconds.
    pub max_delay_ms: u64,
}

/// A policy is well formed when it allows at least one attempt and its
/// delays are positive and ordered.
pub open spec fn policy_wf(p: BackoffPolicy) -> bool {
    &&& 1 <= p.retries
    &&& 1 <= p.base_delay_ms <= p.max_delay_ms
}

/// The executable counterpart of [`policy_wf`], for callers outside
/// verified code that must check a policy before using it.
pub fn policy_is_wf(p: &BackoffPolicy) -> (r: bool)
    ensures
        r == policy_wf(*p),
{
    1 <= p.retries && 1 <= p.base_delay_ms && p.base_delay_ms <= p.max_delay_ms
}

/// The delay slept after failed attempt number `k + 1`: the base delay
/// doubled `k` times, capped at the policy's maximum.
pub open spec fn backoff_at(p: BackoffPolicy, k: nat) -> int
    decreases k,
{
    if k == 0 {
        p.base_delay_ms as int
    } else {
        let doubled = 2 * backoff_at(p, (k - 1) as nat);
        if doubled <= p.max_delay_ms as int {
            doubled
        } else {
            p.max_delay_ms as int
        }
    }
}

/// The evolving state of one connection's dialing phase.
#[derive(Clone, Copy, Debug, PartialEq, Eq, Structural)]
pub struct DialState {
    /// Attempts completed so far, all of them failures.
    pub attempts: u8,
    /// The delay to sleep before the next attempt, in milliseconds.
    pub delay_ms: u64,
}

/// What one dial attempt produced.
#[derive(Clone, Copy, Debug, PartialEq, Eq, Structural)]
pub enum DialOutcome {
    /// The backend accepted the connection.
    Connected,
    /// The connect call failed.
    Refused,
    /// The attempt's own time budget ran out.
    TimedOut,
}

/// The handler's next move after a dial attempt.
#[derive(Clone, Copy, Debug, PartialEq, Eq, Structural)]
pub enum DialDecision {
    /// Start the relay on the connection just established.
    Proceed,
    /// Sleep this many milliseconds, then dial again.
    RetryAfter(u64),
    /// Every attempt is spent: drop the client, start no relay.
    GiveUp,
}

/// A dial state reachable under `p`: some attempts remain, and the
/// pending delay is exactly the backoff the schedule prescribes.
pub open spec fn dial_state_inv(p: BackoffPolicy, s: DialState) -> bool {
    s.attempts < p.retries && s.delay_ms as int == backoff_at(p, s.attempts as nat)
}

/// One doubling step of the delay, capped at the policy's maximum.
pub open spec fn next_delay_spec(p: BackoffPolicy, d: u64) -> u64 {
    if 2 * (d as int) <= p.max_delay_ms as int {
        (2 * (d as int)) as u64
    } else {
        p.max_delay_ms
    }
}

/// What `dial_step` decides and what state it leaves behind.
pub open spec fn dial_step_spec(p: BackoffPolicy, s: DialState, o: DialOutcome) -> (
    DialDecision,
    DialState,
) {
    match o {
        DialOutcome::Connected => (DialDecision::Proceed, s),
        _ => if s.attempts + 1 < p.retries {
            (
                DialDecision::RetryAfter(s.delay_ms),
                DialState {
                    attempts: (s.attempts + 1) as u8,
                    delay_ms: next_delay_spec(p, s.delay_ms),
                },
            )
        } else {
            (DialDecision::GiveUp, s)
        },
    }
}

/// The backoff schedule stays between the base delay and the cap.
pub proof fn lemma_backoff_bounds(p: BackoffPolicy, k: nat)
    requires
        policy_wf(p),
    ensures
        p.base_delay_ms <= backoff_at(p, k) <= p.max_delay_ms,
    decreases k,
{
    if k > 0 {
        lemma_backoff_bounds(p, (k - 1) as nat);
    }
}

/// The backoff schedule never decreases from one failure to the next.
pub proof fn lemma_backoff_monotone(p: BackoffPolicy, k: nat)
    requires
        policy_wf(p),
    ensures
        backoff_at(p, k) <= backoff_at(p, k + 1),
{
    lemma_backoff_bounds(p, k);
}

/// The dialing state before the first attempt.
pub fn dial_init(p: &BackoffPolicy) -> (s: DialState)
    requires
        policy_wf(*p),
    ensures
        s.attempts == 0,
        s.delay_ms == p.base_delay_ms,
        dial_state_inv(*p, s),
{
    DialState { attempts: 0, delay_ms: p.base_delay_ms }
}

/// Decides the handler's next move from the outcome of one attempt.
/// Success proceeds to the relay; a failure retries after the pending
/// delay while attempts remain, and gives up once they are spent.
pub fn dial_step(p: &BackoffPolicy, s: &DialState, o: &DialOutcome) -> (r: (
    DialDecision,
    DialState,
))
    requires
        policy_wf(*p),
    ensures
        r == dial_step_spec(*p, *s, *o),
        r.1.attempts >= s.attempts,
        dial_state_inv(*p, *s) && !(r.0 is GiveUp) ==> dial_state_inv(*p, r.1),
{
    match o {
        DialOutcome::Connected => (DialDecision::Proceed, *s),
        _ => {
            if s.attempts < p.retries - 1 {
                let next_delay = if s.delay_ms <= p.max_delay_ms / 2 {
                    2 * s.delay_ms
                } else {
                    p.max_delay_ms
                };
                assert(next_delay == next_delay_spec(*p, s.delay_ms));
                (
                    DialDecision::RetryAfter(s.delay_ms),
                    DialState { attempts: s.attempts + 1, delay_ms: next_delay },
                )
            } else {
                (DialDecision::GiveUp, *s)
            }
        },
    }
}

/// The policy the relay is configured with.
pub fn default_policy() -> (p: BackoffPolicy)
    ensures
        p.retries == crate::CONNECTION_RETRIES,
        p.base_delay_ms == crate::BASE_DELAY_MS,
        p.max_delay_ms == crate::MAX_BACKOFF_MS,
        policy_wf(p),
{
    BackoffPolicy {
        retries: crate::CONNECTION_RETRIES,
        base_delay_ms: crate::BASE_DELAY_MS,
        max_delay_ms: crate::MAX_BACKOFF_MS,
    }
}

/// The dial state after `k` failed attempts under `p`.
pub open spec fn state_after_failures(p: BackoffPolicy, k: nat) -> DialState
    decreases k,
{
    if k == 0 {
        DialState { attempts: 0, delay_ms: p.base_delay_ms }
    } else {
        dial_step_spec(p, state_after_failures(p, (k - 1) as nat), DialOutcome::Refused).1
    }
}

/// After `k < p.retries` failures the state records exactly `k`
/// attempts and the `k`-th scheduled delay.
pub proof fn lemma_state_after_failures(p: BackoffPolicy, k: nat)
    requires
        policy_wf(p),
        k < p.retries,
    ensures
        state_after_failures(p, k).attempts == k,
        state_after_failures(p, k).delay_ms as int == backoff_at(p, k),
        dial_state_inv(p, state_after_failures(p, k)),
    decreases k,
{
    if k > 0 {
        lemma_state_after_failures(p, (k - 1) as nat);
        lemma_backoff_bounds(p, (k - 1) as nat);
    }
}

/// Law: against a backend that fails every attempt, the dialer makes
/// exactly `p.retries` attempts.  Each failure but the last is followed
/// by a retry whose delay follows the backoff schedule — never
/// decreasing, never above the cap — and the last failure gives up, so
/// no relay is started.
pub proof fn lemma_dial_retry_bound(p: BackoffPolicy, k: nat, o: DialOutcome)
    requires
        policy_wf(p),
        k < p.retries,
        o != DialOutcome::Connected,
    ensures
        state_after_failures(p, k).attempts == k,
        state_after_failures(p, k).delay_ms as int == backoff_at(p, k),
        k + 1 < p.retries ==> dial_step_spec(p, state_after_failures(p, k), o).0
            == DialDecision::RetryAfter(state_after_failures(p, k).delay_ms),
        k + 1 == p.retries ==> dial_step_spec(p, state_after_failures(p, k), o).0
            == DialDecision::GiveUp,
        p.base_delay_ms <= backoff_at(p, k) <= backoff_at(p, k + 1) <= p.max_delay_ms,
{
    lemma_state_after_failures(p, k);
    lemma_backoff_bounds(p, k);
    lemma_backoff_bounds(p, k + 1);
    lemma_backoff_monotone(p, k);
}

} // verus!
