//! The bounded exponential-backoff policy for single-shot requests.
//!
//! The policy decides; the caller performs the attempts and the waits.
use vstd::prelude::*;

use crate::error::{is_transient_kind, kind_of, DeepSeekError};

verus! {

/// Attempts made in all, the first included.
pub const DEFAULT_MAX_ATTEMPTS: u32 = 3;

/// The wait before the first retry, in milliseconds.
pub const DEFAULT_INITIAL_BACKOFF_MS: u64 = 500;

/// Each wait is this many times the previous one.
pub const DEFAULT_BACKOFF_MULTIPLIER: u64 = 2;

/// How often, and after which waits, a transient failure is retried.
#[derive(Clone, Copy, Debug, PartialEq, Eq, Structural)]
pub struct RetryPolicy {
    pub max_attempts: u32,
    pub initial_backoff_ms: u64,
    pub multiplier: u64,
}

/// Where a run of attempts stands: how many retries were granted, and the
/// wait that the next one gets.
#[derive(Clone, Copy, Debug, PartialEq, Eq, Structural)]
pub struct RetryState {
    pub retries: u32,
    pub backoff_ms: u64,
}

/// What to do after a failed attempt.
#[derive(Clone, Copy, Debug, PartialEq, Eq, Structural)]
pub enum RetryDecision {
    /// Wait this many milliseconds, then attempt again.
    RetryAfter(u64),
    /// Hand the failure to the caller.
    GiveUp,
}

/// `a * b`, held at `u64::MAX`.
pub open spec fn saturating_product(a: u64, b: u64) -> u64 {
    if a * b > u64::MAX {
        u64::MAX
    } else {
        (a * b) as u64
    }
}

/// The wait before retry number `k` (from 0).
pub open spec fn backoff_before(p: RetryPolicy, k: nat) -> u64
    decreases k,
{
    if k == 0 {
        p.initial_backoff_ms
    } else {
        saturating_product(backoff_before(p, (k - 1) as nat), p.multiplier)
    }
}

/// The state after `k` retries were granted.
pub open spec fn state_after(p: RetryPolicy, k: nat) -> RetryState {
    RetryState { retries: k as u32, backoff_ms: backoff_before(p, k) }
}

/// The decision, and the next state, after a failure of the given
/// transience in state `s`.
pub open spec fn decide(p: RetryPolicy, s: RetryState, transient: bool) -> (RetryDecision, RetryState) {
    if transient && s.retries + 1 < p.max_attempts {
        (
            RetryDecision::RetryAfter(s.backoff_ms),
            RetryState {
                retries: (s.retries + 1) as u32,
                backoff_ms: saturating_product(s.backoff_ms, p.multiplier),
            },
        )
    } else {
        (RetryDecision::GiveUp, s)
    }
}

/// Attempts made when every attempt fails transiently, from state `s` on.
pub open spec fn attempts_when_always_failing(p: RetryPolicy, s: RetryState) -> nat
    decreases p.max_attempts - s.retries,
{
    if s.retries + 1 < p.max_attempts {
        1 + attempts_when_always_failing(p, decide(p, s, true).1)
    } else {
        1
    }
}

impl RetryPolicy {
    /// Three attempts, waiting 500 ms and then 1000 ms between them.
    pub fn new() -> (r: RetryPolicy)
        ensures
            r.max_attempts == DEFAULT_MAX_ATTEMPTS,
            r.initial_backoff_ms == DEFAULT_INITIAL_BACKOFF_MS,
            r.multiplier == DEFAULT_BACKOFF_MULTIPLIER,
    {
        RetryPolicy {
            max_attempts: DEFAULT_MAX_ATTEMPTS,
            initial_backoff_ms: DEFAULT_INITIAL_BACKOFF_MS,
            multiplier: DEFAULT_BACKOFF_MULTIPLIER,
        }
    }

    /// The state before the first attempt.
    pub fn start(&self) -> (r: RetryState)
        ensures
            r == state_after(*self, 0),
    {
        RetryState { retries: 0, backoff_ms: self.initial_backoff_ms }
    }

    /// Decides what follows a failed attempt: a transient failure is retried
    /// while attempts remain, after the current wait, which then grows; any
    /// other failure, or the last attempt's, is given up on.
    pub fn on_failure(&self, state: &mut RetryState, error: &DeepSeekError) -> (r: RetryDecision)
        ensures
            (r, *final(state)) == decide(*self, *old(state), is_transient_kind(kind_of(*error))),
    {
        if error.is_transient() && state.retries < self.max_attempts && state.retries + 1
            < self.max_attempts {
            let wait = state.backoff_ms;
            state.retries = state.retries + 1;
            state.backoff_ms = match state.backoff_ms.checked_mul(self.multiplier) {
                Some(b) => b,
                None => u64::MAX,
            };
            RetryDecision::RetryAfter(wait)
        } else {
            RetryDecision::GiveUp
        }
    }
}

/// Under repeated transient failures the waits are the initial wait times
/// the multiplier's powers: the `k`-th failure is retried after
/// `backoff_before(p, k)` exactly when `k + 1` attempts leave one to spare,
/// and is given up on otherwise.
pub proof fn lemma_backoff_schedule(p: RetryPolicy, k: nat)
    requires
        k < p.max_attempts,
    ensures
        k + 1 < p.max_attempts ==> decide(p, state_after(p, k), true) == (
            RetryDecision::RetryAfter(backoff_before(p, k)),
            state_after(p, k + 1),
        ),
        k + 1 >= p.max_attempts ==> decide(p, state_after(p, k), true) == (
            RetryDecision::GiveUp,
            state_after(p, k),
        ),
{
    assert(backoff_before(p, k + 1) == saturating_product(backoff_before(p, k), p.multiplier));
}

/// A request that always fails transiently is attempted exactly
/// `max_attempts` times (once when the policy allows no more), never more.
pub proof fn lemma_attempts_exhausted(p: RetryPolicy)
    ensures
        attempts_when_always_failing(p, state_after(p, 0)) == if p.max_attempts == 0 {
            1
        } else {
            p.max_attempts as nat
        },
{
    if p.max_attempts > 0 {
        lemma_attempts_from(p, 0);
    }
}

proof fn lemma_attempts_from(p: RetryPolicy, k: nat)
    requires
        k < p.max_attempts,
    ensures
        attempts_when_always_failing(p, state_after(p, k)) == p.max_attempts - k,
    decreases p.max_attempts - k,
{
    lemma_backoff_schedule(p, k);
    if k + 1 < p.max_attempts {
        lemma_attempts_from(p, k + 1);
    }
}

} // verus!
