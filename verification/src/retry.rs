//! Retrying a failing Steam request with exponential backoff: at most
//! `max_retries` attempts, waiting 1, 2, 4, ... seconds between them.
use vstd::prelude::*;
use vstd::arithmetic::power2::{lemma_pow2_unfold, pow2};

verus! {

/// What to do after an attempt failed.
#[derive(PartialEq, Eq, Structural, Clone, Copy, Debug)]
pub enum RetryStep {
    /// That was the last attempt: report its error.
    GiveUp,
    /// Wait this many seconds, then try again.
    Wait(u64),
}

/// The retry state of one request.
pub struct Backoff {
    failures: usize,
    max_retries: usize,
    delay_secs: u64,
}

impl Backoff {
    /// Attempts that have failed so far.
    pub closed spec fn failed(&self) -> nat {
        self.failures as nat
    }

    /// The most attempts that will be made.
    pub closed spec fn max(&self) -> nat {
        self.max_retries as nat
    }

    /// The wait before the next attempt, should the current one fail.
    pub closed spec fn delay(&self) -> nat {
        self.delay_secs as nat
    }

    /// Fewer attempts have failed than may be made, and the next wait is
    /// 2 to the power of the failures so far.
    pub closed spec fn wf(&self) -> bool {
        &&& self.failures < self.max_retries
        &&& self.delay_secs == pow2(self.failures as nat)
    }

    /// The state before the first attempt, for `max_retries > 0` attempts.
    pub fn new(max_retries: usize) -> (r: Backoff)
        requires
            max_retries > 0,
        ensures
            r.wf(),
            r.failed() == 0,
            r.max() == max_retries,
            r.delay() == 1,
    {
        proof {
            vstd::arithmetic::power::lemma_pow0(2);
            vstd::arithmetic::power2::lemma_pow2(0);
        }
        Backoff { failures: 0, max_retries, delay_secs: 1 }
    }

    /// Attempts that have failed so far.
    pub fn failures(&self) -> (r: usize)
        ensures
            r == self.failed(),
    {
        self.failures
    }

    /// The wait before the next attempt, should the current one fail.
    pub fn delay_secs(&self) -> (r: u64)
        ensures
            r == self.delay(),
    {
        self.delay_secs
    }

    /// Records a failed attempt: the last allowed attempt gives up and leaves
    /// the state as it is; any other waits `2^failures` seconds and doubles
    /// the next wait.
    pub fn on_failure(&mut self) -> (r: RetryStep)
        requires
            old(self).wf(),
            old(self).failed() + 1 < old(self).max() ==> old(self).delay() * 2 <= u64::MAX,
        ensures
            final(self).wf(),
            final(self).max() == old(self).max(),
            old(self).failed() + 1 == old(self).max() ==> r == RetryStep::GiveUp && *final(self)
                == *old(self),
            old(self).failed() + 1 < old(self).max() ==> r == RetryStep::Wait(
                pow2(old(self).failed()) as u64,
            ) && final(self).failed() == old(self).failed() + 1 && final(self).delay() == 2
                * old(self).delay(),
    {
        if self.failures == self.max_retries - 1 {
            return RetryStep::GiveUp;
        }
        let wait = self.delay_secs;
        proof {
            lemma_pow2_unfold((self.failures + 1) as nat);
        }
        self.delay_secs = self.delay_secs * 2;
        self.failures = self.failures + 1;
        RetryStep::Wait(wait)
    }
}

/// However the attempts go, a request is tried at most `max_retries` times
/// and the waits between attempts are 1, 2, 4, ... seconds: after the
/// `k`-th failure (counting from 0) the wait is `2^k`.
pub proof fn lemma_backoff_schedule(b: Backoff)
    requires
        b.wf(),
    ensures
        b.failed() < b.max(),
        b.delay() == pow2(b.failed()),
{
}

} // verus!
