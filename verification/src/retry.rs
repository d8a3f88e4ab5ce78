//! Bounded retries with linear backoff, as every network call site uses them.

use vstd::prelude::*;

verus! {

/// The pause between attempts grows by this much per attempt.
pub const BACKOFF_STEP_MS: u32 = 500;

/// What to do after an attempt has failed.
#[derive(Clone, Copy, Debug, PartialEq, Eq, Structural)]
pub enum RetryStep {
    /// Wait `wait_ms`, then make attempt number `next_attempt`.
    RetryAfter { wait_ms: u64, next_attempt: u32 },
    /// The attempt budget is spent.
    GiveUp,
}

/// How often a call is attempted and how long to wait between attempts.
/// Attempts are numbered from 1.
#[derive(Clone, Copy, Debug, PartialEq, Eq, Structural)]
pub struct RetryPolicy {
    pub max_attempts: u32,
    pub backoff_step_ms: u32,
}

/// The wait after failed attempt number `attempt`: the step times the
/// attempt's number.
pub open spec fn backoff_ms(step_ms: u32, attempt: u32) -> nat {
    (step_ms as nat) * (attempt as nat)
}

impl RetryPolicy {
    /// The step after attempt number `attempt` has failed.
    pub open spec fn step_after_failure(&self, attempt: u32) -> RetryStep {
        if attempt < self.max_attempts {
            RetryStep::RetryAfter {
                wait_ms: backoff_ms(self.backoff_step_ms, attempt) as u64,
                next_attempt: (attempt + 1) as u32,
            }
        } else {
            RetryStep::GiveUp
        }
    }

    /// Two attempts, for resolving a redirect.
    pub fn redirect() -> (p: RetryPolicy)
        ensures
            p == (RetryPolicy { max_attempts: 2, backoff_step_ms: 500 }),
    {
        RetryPolicy { max_attempts: 2, backoff_step_ms: BACKOFF_STEP_MS }
    }

    /// Three attempts, for opening the media stream and for a seek.
    pub fn connect() -> (p: RetryPolicy)
        ensures
            p == (RetryPolicy { max_attempts: 3, backoff_step_ms: 500 }),
    {
        RetryPolicy { max_attempts: 3, backoff_step_ms: BACKOFF_STEP_MS }
    }

    /// Decides, after attempt number `attempt` has failed, between another
    /// attempt after a wait and giving up.
    pub fn after_failure(&self, attempt: u32) -> (step: RetryStep)
        ensures
            step == self.step_after_failure(attempt),
            backoff_ms(self.backoff_step_ms, attempt) <= u64::MAX,
    {
        assert(backoff_ms(self.backoff_step_ms, attempt) <= 0xffff_ffff * 0xffff_ffff)
            by (nonlinear_arith)
            requires
                self.backoff_step_ms <= 0xffff_ffff,
                attempt <= 0xffff_ffff,
        ;
        if attempt < self.max_attempts {
            let wait: u64 = (self.backoff_step_ms as u64) * (attempt as u64);
            RetryStep::RetryAfter { wait_ms: wait, next_attempt: attempt + 1 }
        } else {
            RetryStep::GiveUp
        }
    }
}

/// A call that keeps failing is attempted exactly `max_attempts` times: every
/// failure before the last asks for the next attempt, and the last gives up.
pub proof fn lemma_attempt_budget(policy: RetryPolicy, attempt: u32)
    requires
        1 <= attempt,
    ensures
        attempt < policy.max_attempts ==> policy.step_after_failure(attempt) == (
        RetryStep::RetryAfter {
            wait_ms: backoff_ms(policy.backoff_step_ms, attempt) as u64,
            next_attempt: (attempt + 1) as u32,
        }),
        attempt >= policy.max_attempts ==> policy.step_after_failure(attempt)
            == RetryStep::GiveUp,
{
}

} // verus!
