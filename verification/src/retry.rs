//! The retry driver's decision core.
//!
//! A fallible operation is run under an exponential-backoff policy. Each
//! failure is classified by the caller as transient or permanent; the state
//! machine here decides whether to sleep and retry or to give up, and by how
//! much the next interval grows. The surrounding loop — running the operation,
//! sleeping, measuring elapsed time, drawing the random jitter — is the
//! caller's, so every decision is verified for every outcome of those steps.

use vstd::prelude::*;

verus! {

/// How the retry driver should treat a failed attempt.
#[derive(Clone, Copy, Debug, PartialEq, Eq, Structural)]
pub enum ErrorClass {
    /// Worth repeating: transport and request-construction failures.
    Transient,
    /// Futile to repeat: the same failure would come back.
    Permanent,
}

/// Exponential-backoff parameters. Durations are in milliseconds; the
/// multiplier and the randomization factor are in permille, so a
/// `multiplier_permille` of 1500 grows each interval by half, and a
/// `randomization_permille` of 200 draws delays within twenty percent
/// of the raw interval.
#[derive(Clone, Copy, Debug)]
pub struct RetryPolicy {
    pub initial_interval_ms: u64,
    pub multiplier_permille: u64,
    pub max_interval_ms: u64,
    pub randomization_permille: u64,
    /// Once this much time has elapsed, a transient failure is no longer
    /// retried. `None` retries without a time budget.
    pub max_elapsed_ms: Option<u64>,
}

impl RetryPolicy {
    /// A usable policy: the multiplier does not shrink intervals, the initial
    /// interval does not exceed the cap, the randomization factor stays within
    /// one (so delays stay nonnegative), and the cap leaves room for the widest
    /// randomized delay in a `u64`.
    pub open spec fn wf(self) -> bool {
        &&& 1000 <= self.multiplier_permille
        &&& self.initial_interval_ms <= self.max_interval_ms
        &&& self.randomization_permille <= 1000
        &&& self.max_interval_ms <= 0x7fff_ffff_ffff_ffff
    }

    /// The raw interval that follows `cur`: grown by the multiplier and capped
    /// at the maximum interval.
    pub open spec fn grown_interval_spec(self, cur: u64) -> int {
        let grown = cur * self.multiplier_permille / 1000;
        if grown > self.max_interval_ms {
            self.max_interval_ms as int
        } else {
            grown
        }
    }
}

/// The delay actually slept before the next attempt: the current raw interval
/// scaled by the jitter the caller drew, in permille.
pub open spec fn jittered_delay_spec(cur: u64, jitter_permille: u64) -> int {
    cur * jitter_permille / 1000
}

/// What the retry driver tells its caller to do after a failed attempt.
#[derive(Debug)]
pub enum RetryDecision<E> {
    /// Sleep for the given delay, then run the operation once more.
    Retry { delay_ms: u64 },
    /// Stop and surface this error — the one the failed attempt produced —
    /// to the caller, verbatim.
    GiveUp(E),
}

/// The driver's state between attempts: the policy and the raw interval the
/// next transient failure will be delayed by.
#[derive(Clone, Copy, Debug)]
pub struct RetryState {
    pub policy: RetryPolicy,
    pub current_interval_ms: u64,
}

impl RetryState {
    pub open spec fn wf(self) -> bool {
        &&& self.policy.wf()
        &&& self.current_interval_ms <= self.policy.max_interval_ms
    }

    /// A fresh driver, ready for the first failure, starting from the policy's
    /// initial interval.
    pub fn new(policy: RetryPolicy) -> (s: Self)
        requires
            policy.wf(),
        ensures
            s.wf(),
            s.policy == policy,
            s.current_interval_ms == policy.initial_interval_ms,
    {
        RetryState { policy, current_interval_ms: policy.initial_interval_ms }
    }

    /// Whether the elapsed-time budget no longer allows another attempt.
    pub open spec fn budget_exhausted_spec(self, elapsed_ms: u64) -> bool {
        match self.policy.max_elapsed_ms {
            Some(max) => elapsed_ms > max,
            None => false,
        }
    }

    /// The decision taken on a failure, and the state the driver moves to:
    /// a permanent failure, or a transient one past the time budget, is handed
    /// back at once and the state stands still; any other transient failure is
    /// retried after the jittered current interval, and the interval grows.
    pub open spec fn on_failure_spec<E>(
        self,
        err: E,
        class: ErrorClass,
        elapsed_ms: u64,
        jitter_permille: u64,
    ) -> (RetryState, RetryDecision<E>) {
        if class is Permanent || self.budget_exhausted_spec(elapsed_ms) {
            (self, RetryDecision::GiveUp(err))
        } else {
            (
                RetryState {
                    policy: self.policy,
                    current_interval_ms: self.policy.grown_interval_spec(
                        self.current_interval_ms,
                    ) as u64,
                },
                RetryDecision::Retry {
                    delay_ms: jittered_delay_spec(self.current_interval_ms, jitter_permille) as u64,
                },
            )
        }
    }

    /// Decide what to do about a failed attempt.
    ///
    /// `err` is the error the attempt produced and `class` its classification;
    /// `elapsed_ms` is the wall time spent on the whole operation so far, as
    /// the caller measured it; `jitter_permille` is the random factor the
    /// caller drew from the policy's randomization band.
    pub fn on_failure<E>(
        &mut self,
        err: E,
        class: ErrorClass,
        elapsed_ms: u64,
        jitter_permille: u64,
    ) -> (d: RetryDecision<E>)
        requires
            old(self).wf(),
            1000 - old(self).policy.randomization_permille <= jitter_permille,
            jitter_permille <= 1000 + old(self).policy.randomization_permille,
        ensures
            final(self).wf(),
            (*final(self), d) == old(self).on_failure_spec(err, class, elapsed_ms, jitter_permille),
    {
        let exhausted: bool = match self.policy.max_elapsed_ms {
            Some(max) => elapsed_ms > max,
            None => false,
        };
        if matches!(class, ErrorClass::Permanent) || exhausted {
            RetryDecision::GiveUp(err)
        } else {
            let cur = self.current_interval_ms;
            proof {
                assert((cur as int) * (jitter_permille as int) <= 0x7fff_ffff_ffff_ffff * 2000int
                    && 0 <= (cur as int) * (self.policy.multiplier_permille as int)
                    <= 0x7fff_ffff_ffff_ffff * 0xffff_ffff_ffff_ffffint) by (nonlinear_arith)
                    requires
                        cur <= 0x7fff_ffff_ffff_ffff,
                        jitter_permille <= 2000,
                        self.policy.multiplier_permille <= 0xffff_ffff_ffff_ffff,
                ;
                assert((cur as int) * (jitter_permille as int) / 1000 <= 0x7fff_ffff_ffff_ffff
                    * 2000int / 1000) by {
                    vstd::arithmetic::div_mod::lemma_div_is_ordered(
                        (cur as int) * (jitter_permille as int),
                        0x7fff_ffff_ffff_ffff * 2000int,
                        1000int,
                    );
                }
            }
            let delay_wide: u128 = (cur as u128) * (jitter_permille as u128) / 1000;
            let delay_ms: u64 = delay_wide as u64;
            let grown_wide: u128 = (cur as u128) * (self.policy.multiplier_permille as u128)
                / 1000;
            let next: u64 = if grown_wide > self.policy.max_interval_ms as u128 {
                self.policy.max_interval_ms
            } else {
                grown_wide as u64
            };
            self.current_interval_ms = next;
            RetryDecision::Retry { delay_ms }
        }
    }
}

/// A permanent failure is returned at once: the driver never sleeps for it and
/// the backoff state does not move, so the operation is invoked exactly once
/// on its account.
pub proof fn lemma_permanent_never_retried<E>(
    s: RetryState,
    err: E,
    elapsed_ms: u64,
    jitter_permille: u64,
)
    ensures
        s.on_failure_spec(err, ErrorClass::Permanent, elapsed_ms, jitter_permille) == (
            s,
            RetryDecision::GiveUp(err),
        ),
{
}

/// Once the elapsed-time budget is spent, the last transient failure is handed
/// back verbatim and nothing more is attempted.
pub proof fn lemma_exhausted_returns_last_error<E>(
    s: RetryState,
    err: E,
    elapsed_ms: u64,
    jitter_permille: u64,
)
    requires
        s.budget_exhausted_spec(elapsed_ms),
    ensures
        s.on_failure_spec(err, ErrorClass::Transient, elapsed_ms, jitter_permille) == (
            s,
            RetryDecision::GiveUp(err),
        ),
{
}

/// Raw backoff intervals never decrease and never pass the configured cap.
pub proof fn lemma_backoff_monotone(p: RetryPolicy, cur: u64)
    requires
        p.wf(),
        cur <= p.max_interval_ms,
    ensures
        cur <= p.grown_interval_spec(cur),
        p.grown_interval_spec(cur) <= p.max_interval_ms,
{
    assert((cur as int) * (p.multiplier_permille as int) >= (cur as int) * 1000) by (nonlinear_arith)
        requires
            p.multiplier_permille >= 1000,
            cur >= 0,
    ;
    vstd::arithmetic::div_mod::lemma_div_is_ordered(
        (cur as int) * 1000,
        (cur as int) * (p.multiplier_permille as int),
        1000int,
    );
    assert((cur as int) * 1000 / 1000 == cur as int) by (nonlinear_arith);
}

/// A randomized delay stays within the randomization band around the raw
/// interval: between `cur * (1 - r)` and `cur * (1 + r)`.
pub proof fn lemma_delay_within_band(cur: u64, randomization_permille: u64, jitter_permille: u64)
    requires
        randomization_permille <= 1000,
        1000 - randomization_permille <= jitter_permille,
        jitter_permille <= 1000 + randomization_permille,
    ensures
        cur * (1000 - randomization_permille) / 1000 <= jittered_delay_spec(cur, jitter_permille),
        jittered_delay_spec(cur, jitter_permille) <= cur * (1000 + randomization_permille) / 1000,
{
    assert((cur as int) * (1000 - randomization_permille) <= (cur as int) * (jitter_permille as int)
        <= (cur as int) * (1000 + randomization_permille)) by (nonlinear_arith)
        requires
            cur >= 0,
            1000 - randomization_permille <= jitter_permille,
            jitter_permille <= 1000 + randomization_permille,
    ;
    vstd::arithmetic::div_mod::lemma_div_is_ordered(
        (cur as int) * (1000 - randomization_permille),
        (cur as int) * (jitter_permille as int),
        1000int,
    );
    vstd::arithmetic::div_mod::lemma_div_is_ordered(
        (cur as int) * (jitter_permille as int),
        (cur as int) * (1000 + randomization_permille),
        1000int,
    );
}

} // verus!
