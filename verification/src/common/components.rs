//! Resilience wrappers around a fallible step: a bounded or unbounded retry
//! guard and a periodic repeat guard. The guards own the decision logic
//! (retry, sleep, give up, stop); actually running the wrapped step and
//! sleeping happens outside the library.
use vstd::prelude::*;

verus! {

/// What a retry guard tells its driver after the wrapped step failed.
#[derive(Debug, Clone, PartialEq, Eq)]
pub enum RetryDecision {
    /// The retry budget is exhausted: return the step's last error.
    GiveUp,
    /// Sleep for the given number of seconds, reset all session state, and run
    /// the wrapped step again from its beginning.
    RetryAfterDelay(u64),
}

/// How the retries counter moves on one failure: below a configured bound it
/// advances by one; at the bound, or with no bound, it stays.
pub open spec fn spec_retry_step(retries: int, max: Option<i32>) -> int {
    match max {
        Some(m) => if retries >= m {
            retries
        } else {
            retries + 1
        },
        None => retries,
    }
}

/// Whether a guard with the given counter and bound answers a failure with
/// `GiveUp`: only when a bound is configured and the counter has reached it.
pub open spec fn spec_retry_gives_up(retries: int, max: Option<i32>) -> bool {
    match max {
        Some(m) => retries >= m,
        None => false,
    }
}

/// Re-runs a fallible step after a fixed delay, up to `max_retries` times
/// (`None` means forever). On success the driver returns immediately; on
/// failure the guard decides between another round and giving up.
#[derive(Debug)]
pub struct RetryGuard<C> {
    /// The maximum number of retries to attempt; `None` retries forever.
    pub max_retries: Option<i32>,
    /// Seconds to sleep between a failure and the next attempt.
    pub timeout: u64,
    /// The wrapped step.
    pub component: C,
    /// Failures answered with a retry so far.
    pub retries: i32,
}

impl<C> RetryGuard<C> {
    pub fn new(max_retries: Option<i32>, timeout: u64, component: C) -> (g: Self)
        ensures
            g.max_retries == max_retries,
            g.timeout == timeout,
            g.component == component,
            g.retries == 0,
    {
        Self { max_retries, timeout, component, retries: 0 }
    }

    /// Whether the next failure is answered with `GiveUp`.
    pub open spec fn gives_up(self) -> bool {
        spec_retry_gives_up(self.retries as int, self.max_retries)
    }

    /// Decides what to do after the wrapped step failed: give up once the
    /// configured bound is reached, otherwise count the failure and ask for
    /// another attempt after the configured delay.
    pub fn on_failure(&mut self) -> (d: RetryDecision)
        ensures
            old(self).gives_up() ==> d == RetryDecision::GiveUp,
            !old(self).gives_up() ==> d == RetryDecision::RetryAfterDelay(old(self).timeout),
            final(self).retries as int == spec_retry_step(
                old(self).retries as int,
                old(self).max_retries,
            ),
            final(self).max_retries == old(self).max_retries,
            final(self).timeout == old(self).timeout,
            final(self).component == old(self).component,
    {
        match self.max_retries {
            Some(m) => {
                if self.retries >= m {
                    RetryDecision::GiveUp
                } else {
                    self.retries = self.retries + 1;
                    RetryDecision::RetryAfterDelay(self.timeout)
                }
            },
            None => RetryDecision::RetryAfterDelay(self.timeout),
        }
    }
}

/// The retries counter after `n` failures of a guard created with bound
/// `Some(max)` and a fresh counter, following `spec_retry_step`.
pub open spec fn spec_retries_after(n: nat, max: i32) -> int
    decreases n,
{
    if n == 0 {
        0
    } else {
        spec_retry_step(spec_retries_after((n - 1) as nat, max), Some(max))
    }
}

/// With a nonnegative bound the counter climbs one per failure and stops at
/// the bound.
pub proof fn lemma_retries_after_value(n: nat, max: i32)
    requires
        max >= 0,
    ensures
        spec_retries_after(n, max) == if n <= max {
            n as int
        } else {
            max as int
        },
    decreases n,
{
    if n > 0 {
        lemma_retries_after_value((n - 1) as nat, max);
    }
}

/// A step that always fails, run under a retry guard with a configured bound
/// `max >= 0`: the k-th failure is answered with `GiveUp` exactly when
/// `k > max`, so the step runs exactly `max + 1` times in total (one initial
/// attempt plus `max` retries) and the guard then returns the step's error.
pub proof fn lemma_retry_total_attempts(max: i32, k: nat)
    requires
        max >= 0,
        k >= 1,
    ensures
        spec_retry_gives_up(spec_retries_after((k - 1) as nat, max), Some(max)) <==> k as int
            > max as int,
{
    lemma_retries_after_value((k - 1) as nat, max);
}

/// What a repeat guard tells its driver after one round of the wrapped step.
#[derive(Debug, Clone, PartialEq, Eq)]
pub enum RepeatDecision {
    /// The round succeeded: sleep for the given number of seconds and run the
    /// step again.
    SleepThenRepeat(u64),
    /// The round failed: propagate the error immediately, without retrying.
    Stop,
}

/// Runs a step forever with a fixed delay between successful rounds; any
/// failure propagates immediately (an outer retry guard, if present, decides
/// whether to restart).
#[derive(Debug)]
pub struct InfiniteGuard<C> {
    /// Seconds to sleep between successful rounds.
    pub timeout: u64,
    /// The wrapped step.
    pub component: C,
}

impl<C> InfiniteGuard<C> {
    pub fn new(timeout: u64, component: C) -> (g: Self)
        ensures
            g.timeout == timeout,
            g.component == component,
    {
        Self { timeout, component }
    }

    /// Decides what to do after one round of the wrapped step.
    pub fn after_round(&self, succeeded: bool) -> (d: RepeatDecision)
        ensures
            d == if succeeded {
                RepeatDecision::SleepThenRepeat(self.timeout)
            } else {
                RepeatDecision::Stop
            },
    {
        if succeeded {
            RepeatDecision::SleepThenRepeat(self.timeout)
        } else {
            RepeatDecision::Stop
        }
    }
}

} // verus!
