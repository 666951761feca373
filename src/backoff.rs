//! Bounded retry with a fixed or linearly growing pause between attempts.

use vstd::prelude::*;

verus! {

/// How often to try and how long to wait between tries.
#[derive(Clone, Copy, Debug, PartialEq, Eq, Structural)]
pub struct Backoff {
    /// Attempts in all, the first included.
    pub max_attempts: u32,
    /// The pause after a failed attempt, in milliseconds; with `linear`, the
    /// pause after the k-th failure is k times this.
    pub interval_ms: u64,
    pub linear: bool,
}

impl Backoff {
    /// The pauses fit in their type.
    pub open spec fn wf(&self) -> bool {
        self.interval_ms as int * self.max_attempts as int <= u64::MAX
    }

    /// The pause after the `failures`-th failed attempt.
    pub open spec fn pause_after(&self, failures: int) -> int {
        if self.linear {
            self.interval_ms as int * failures
        } else {
            self.interval_ms as int
        }
    }
}

/// Claiming the device's interface: six attempts, pausing 200 ms more
/// after each failure.
pub fn claim_backoff() -> (r: Backoff)
    ensures
        r == (Backoff { max_attempts: 6, interval_ms: 200, linear: true }),
        r.wf(),
{
    Backoff { max_attempts: 6, interval_ms: 200, linear: true }
}

/// Finding the physical sink again after a reconnect: ten attempts,
/// 300 ms apart.
pub fn relink_backoff() -> (r: Backoff)
    ensures
        r == (Backoff { max_attempts: 10, interval_ms: 300, linear: false }),
        r.wf(),
{
    Backoff { max_attempts: 10, interval_ms: 300, linear: false }
}

/// What to do after a failed attempt.
#[derive(Clone, Copy, Debug, PartialEq, Eq, Structural)]
pub enum RetryDecision {
    /// Sleep this many milliseconds, then try again.
    Wait(u64),
    /// The attempts are used up.
    GiveUp,
    /// Cancellation was requested: stop without further tries.
    Cancelled,
}

/// A retry in progress: its policy and the failures so far.
pub struct Retry {
    pub policy: Backoff,
    pub failures: u32,
}

impl Retry {
    pub open spec fn wf(&self) -> bool {
        self.policy.wf() && self.failures <= self.policy.max_attempts
    }

    /// A retry with no failure yet.
    pub fn new(policy: Backoff) -> (r: Retry)
        requires
            policy.wf(),
        ensures
            r.wf(),
            r.policy == policy,
            r.failures == 0,
    {
        Retry { policy, failures: 0 }
    }

    /// Records a failed attempt and decides what follows. Cancellation
    /// stops at once; the last allowed attempt gives up; any other failure
    /// waits out the policy's pause.
    pub fn after_failure(&mut self, cancelled: bool) -> (r: RetryDecision)
        requires
            old(self).wf(),
        ensures
            final(self).wf(),
            final(self).policy == old(self).policy,
            final(self).failures == if old(self).failures < old(self).policy.max_attempts {
                old(self).failures + 1
            } else {
                old(self).failures as int
            },
            r == if cancelled {
                RetryDecision::Cancelled
            } else if old(self).failures + 1 >= old(self).policy.max_attempts {
                RetryDecision::GiveUp
            } else {
                RetryDecision::Wait(old(self).policy.pause_after(old(self).failures + 1) as u64)
            },
    {
        if self.failures < self.policy.max_attempts {
            self.failures = self.failures + 1;
        }
        if cancelled {
            RetryDecision::Cancelled
        } else if self.failures >= self.policy.max_attempts {
            RetryDecision::GiveUp
        } else if self.policy.linear {
            proof {
                let n = self.failures as int;
                let m = self.policy.max_attempts as int;
                let v = self.policy.interval_ms as int;
                assert(v * n <= v * m) by (nonlinear_arith)
                    requires 0 <= n <= m, 0 <= v;
            }
            RetryDecision::Wait(self.policy.interval_ms * (self.failures as u64))
        } else {
            RetryDecision::Wait(self.policy.interval_ms)
        }
    }
}

} // verus!
