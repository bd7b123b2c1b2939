//! Process-level escalation: how many consecutive sessions ended too early.

use vstd::prelude::*;

verus! {

/// A session is a success when it lasted longer than this (3 seconds).
pub const SUCCESS_TIME_LIMIT_NS: u128 = 3_000_000_000;

/// The process gives up after this many consecutive failed sessions.
pub const MAX_CONSECUTIVE_FAILURES: u32 = 3;

/// The count of consecutive sessions that did not outlive the success limit.
pub open spec fn count_after(count: nat, elapsed_ns: u128) -> nat {
    if elapsed_ns > SUCCESS_TIME_LIMIT_NS {
        0
    } else {
        count + 1
    }
}

#[derive(Debug, Clone, Copy, PartialEq, Eq, Structural)]
pub struct FailureBudget {
    pub consecutive_fail_count: u32,
}

impl FailureBudget {
    /// The count never passes the point at which the process stops.
    pub open spec fn wf(&self) -> bool {
        self.consecutive_fail_count <= MAX_CONSECUTIVE_FAILURES
    }

    pub open spec fn exhausted(&self) -> bool {
        self.consecutive_fail_count >= MAX_CONSECUTIVE_FAILURES
    }

    pub fn new() -> (r: Self)
        ensures
            r.consecutive_fail_count == 0,
            r.wf(),
            !r.exhausted(),
    {
        FailureBudget { consecutive_fail_count: 0 }
    }

    /// Accounts for one finished session that lasted `elapsed_ns`: a session
    /// longer than the success limit resets the count, any other adds one.
    /// Returns whether the budget is now exhausted.
    pub fn record_session(&mut self, elapsed_ns: u128) -> (exhausted: bool)
        requires
            old(self).wf(),
            !old(self).exhausted(),
        ensures
            final(self).consecutive_fail_count == count_after(
                old(self).consecutive_fail_count as nat,
                elapsed_ns,
            ),
            final(self).wf(),
            exhausted == final(self).exhausted(),
    {
        if elapsed_ns > SUCCESS_TIME_LIMIT_NS {
            self.consecutive_fail_count = 0;
        } else {
            self.consecutive_fail_count = self.consecutive_fail_count + 1;
        }
        self.is_exhausted()
    }

    /// Whether the process must stop.
    pub fn is_exhausted(&self) -> (r: bool)
        ensures
            r == self.exhausted(),
    {
        self.consecutive_fail_count >= MAX_CONSECUTIVE_FAILURES
    }
}

/// Three consecutive sessions, none of which outlived the success limit,
/// leave a fresh budget at three failures, and the process stops.
pub proof fn lemma_short_sessions_exhaust(a: u128, b: u128, c: u128)
    requires
        a <= SUCCESS_TIME_LIMIT_NS,
        b <= SUCCESS_TIME_LIMIT_NS,
        c <= SUCCESS_TIME_LIMIT_NS,
    ensures
        count_after(count_after(count_after(0, a), b), c) == 3,
        count_after(0, a) < MAX_CONSECUTIVE_FAILURES,
        count_after(count_after(0, a), b) < MAX_CONSECUTIVE_FAILURES,
{
}

/// A session that outlives the success limit resets the count: failure,
/// success, failure leaves one failure on the books, and the process goes on.
pub proof fn lemma_success_resets_budget(a: u128, b: u128, c: u128)
    requires
        a <= SUCCESS_TIME_LIMIT_NS,
        b > SUCCESS_TIME_LIMIT_NS,
        c <= SUCCESS_TIME_LIMIT_NS,
    ensures
        count_after(count_after(0, a), b) == 0,
        count_after(count_after(count_after(0, a), b), c) == 1,
        count_after(count_after(count_after(0, a), b), c) < MAX_CONSECUTIVE_FAILURES,
{
}

} // verus!
