//! The report enablement sequencer: brings a freshly initialised sensor to
//! emit a fixed, ordered set of reports, with a bounded number of requests
//! per report.
//!
//! The caller owns the device. It asks [`Enabler::pending`] which report to
//! check, tells [`Enabler::observe`] whether the device says it is enabled,
//! and carries out the returned [`EnableStep`].

use vstd::prelude::*;
use crate::report::{session_plan, session_reports, ReportKind, ReportRequest, ACCELEROMETER_UPDATE_MS};

verus! {

/// Enable requests made for one report before giving up on it.
pub const MAX_ENABLE_TRIES: u32 = 5;

/// Pause after each report of a session is confirmed.
pub const SESSION_SETTLE_MS: u32 = 100;

/// Pause after the report that provisioning needs is confirmed.
pub const PROVISIONING_SETTLE_MS: u32 = 1000;

/// What the caller does next.
#[derive(Debug, Clone, Copy, PartialEq, Eq, Structural)]
pub enum EnableStep {
    /// Ask the device to enable `kind` at `interval_ms`, then check it again.
    Request { kind: ReportKind, interval_ms: u16 },
    /// `kind` is enabled: pause for `pause_ms`, then go on with the next one.
    Settle { kind: ReportKind, pause_ms: u32 },
    /// `kind` stayed disabled: the whole sequence failed.
    Failed { kind: ReportKind },
}

/// How far the sequence has come: the report being worked on, the enable
/// requests made for it so far, and whether the sequence gave up.
#[derive(Debug, Clone, Copy, PartialEq, Eq, Structural)]
pub struct Progress {
    pub index: usize,
    pub attempts: u32,
    pub failed: bool,
}

/// One step of the sequence, given whether the device reports the current
/// report as enabled.
pub open spec fn advance(
    plan: Seq<ReportRequest>,
    settle_ms: u32,
    p: Progress,
    enabled: bool,
) -> (Progress, EnableStep)
    recommends
        p.index < plan.len(),
{
    let req = plan[p.index as int];
    if enabled {
        (
            Progress { index: (p.index + 1) as usize, attempts: 0, failed: false },
            EnableStep::Settle { kind: req.kind, pause_ms: settle_ms },
        )
    } else if p.attempts < MAX_ENABLE_TRIES {
        (
            Progress { index: p.index, attempts: (p.attempts + 1) as u32, failed: false },
            EnableStep::Request { kind: req.kind, interval_ms: req.interval_ms },
        )
    } else {
        (
            Progress { index: p.index, attempts: p.attempts, failed: true },
            EnableStep::Failed { kind: req.kind },
        )
    }
}

pub struct Enabler {
    pub plan: Vec<ReportRequest>,
    pub settle_ms: u32,
    pub progress: Progress,
}

impl Enabler {
    pub open spec fn wf(&self) -> bool {
        &&& self.progress.index <= self.plan@.len()
        &&& self.progress.attempts <= MAX_ENABLE_TRIES
        &&& self.progress.failed ==> self.progress.index < self.plan@.len()
    }

    /// The report whose state the caller must check next, if any.
    pub open spec fn pending_kind(&self) -> Option<ReportKind> {
        if !self.progress.failed && self.progress.index < self.plan@.len() {
            Some(self.plan@[self.progress.index as int].kind)
        } else {
            None
        }
    }

    /// Every report of the plan is enabled.
    pub open spec fn complete(&self) -> bool {
        !self.progress.failed && self.progress.index == self.plan@.len()
    }

    /// A sequence over `plan` that pauses `settle_ms` after each report.
    pub fn new(plan: Vec<ReportRequest>, settle_ms: u32) -> (r: Self)
        ensures
            r.wf(),
            r.plan@ == plan@,
            r.settle_ms == settle_ms,
            r.progress == (Progress { index: 0, attempts: 0, failed: false }),
    {
        Enabler { plan, settle_ms, progress: Progress { index: 0, attempts: 0, failed: false } }
    }

    /// The sequence a session runs: orientation, linear acceleration,
    /// angular velocity and magnetic field, in that order.
    pub fn for_session() -> (r: Self)
        ensures
            r.wf(),
            r.plan@ == session_reports(),
            r.settle_ms == SESSION_SETTLE_MS,
            r.progress == (Progress { index: 0, attempts: 0, failed: false }),
    {
        Enabler::new(session_plan(), SESSION_SETTLE_MS)
    }

    /// The sequence provisioning runs: the accelerometer alone, so that the
    /// device has something to report while its records are written.
    pub fn for_provisioning() -> (r: Self)
        ensures
            r.wf(),
            r.plan@ == seq![
                ReportRequest { kind: ReportKind::LinearAcceleration, interval_ms: ACCELEROMETER_UPDATE_MS },
            ],
            r.settle_ms == PROVISIONING_SETTLE_MS,
            r.progress == (Progress { index: 0, attempts: 0, failed: false }),
    {
        let mut plan: Vec<ReportRequest> = Vec::new();
        plan.push(ReportRequest { kind: ReportKind::LinearAcceleration, interval_ms: ACCELEROMETER_UPDATE_MS });
        Enabler::new(plan, PROVISIONING_SETTLE_MS)
    }

    /// The report to check next; `None` once the sequence is complete or failed.
    pub fn pending(&self) -> (r: Option<ReportKind>)
        requires
            self.wf(),
        ensures
            r == self.pending_kind(),
    {
        if !self.progress.failed && self.progress.index < self.plan.len() {
            Some(self.plan[self.progress.index].kind)
        } else {
            None
        }
    }

    /// Takes the device's answer for the pending report: a report that is
    /// enabled is confirmed; one that is not is requested again while fewer
    /// than five requests were made for it, and otherwise fails the sequence,
    /// which then goes on to no other report.
    pub fn observe(&mut self, enabled: bool) -> (step: EnableStep)
        requires
            old(self).wf(),
            old(self).pending_kind() is Some,
        ensures
            final(self).wf(),
            final(self).plan == old(self).plan,
            final(self).settle_ms == old(self).settle_ms,
            (final(self).progress, step) == advance(
                old(self).plan@,
                old(self).settle_ms,
                old(self).progress,
                enabled,
            ),
    {
        let len = self.plan.len();
        let req = self.plan[self.progress.index];
        if enabled {
            assert(self.progress.index < len);
            self.progress = Progress { index: self.progress.index + 1, attempts: 0, failed: false };
            EnableStep::Settle { kind: req.kind, pause_ms: self.settle_ms }
        } else if self.progress.attempts < MAX_ENABLE_TRIES {
            self.progress = Progress {
                index: self.progress.index,
                attempts: self.progress.attempts + 1,
                failed: false,
            };
            EnableStep::Request { kind: req.kind, interval_ms: req.interval_ms }
        } else {
            self.progress = Progress {
                index: self.progress.index,
                attempts: self.progress.attempts,
                failed: true,
            };
            EnableStep::Failed { kind: req.kind }
        }
    }

    /// Every report of the plan is enabled.
    pub fn is_complete(&self) -> (r: bool)
        requires
            self.wf(),
        ensures
            r == self.complete(),
    {
        !self.progress.failed && self.progress.index == self.plan.len()
    }

    /// The sequence gave up on a report.
    pub fn has_failed(&self) -> (r: bool)
        ensures
            r == self.progress.failed,
    {
        self.progress.failed
    }
}

/// Runs the sequence from `p` for at most `n` answers against a device that
/// reports a report enabled once it has been asked to enable it `k` times.
/// Returns where the sequence stands and the steps it took.
pub open spec fn run_against(
    plan: Seq<ReportRequest>,
    settle_ms: u32,
    p: Progress,
    k: nat,
    n: nat,
) -> (Progress, Seq<EnableStep>)
    decreases n,
{
    if n == 0 || p.failed || p.index >= plan.len() {
        (p, Seq::empty())
    } else {
        let first = advance(plan, settle_ms, p, p.attempts >= k);
        let rest = run_against(plan, settle_ms, first.0, k, (n - 1) as nat);
        (rest.0, seq![first.1] + rest.1)
    }
}

/// `count` requests for the report at `i`.
pub open spec fn requests_for(plan: Seq<ReportRequest>, i: int, count: nat) -> Seq<EnableStep> {
    Seq::new(
        count,
        |x: int| EnableStep::Request { kind: plan[i].kind, interval_ms: plan[i].interval_ms },
    )
}

proof fn lemma_enabled_from(plan: Seq<ReportRequest>, settle_ms: u32, i: usize, j: u32, k: nat)
    requires
        i < plan.len(),
        j <= k,
        k <= MAX_ENABLE_TRIES,
    ensures
        run_against(
            plan,
            settle_ms,
            Progress { index: i, attempts: j, failed: false },
            k,
            (k - j + 1) as nat,
        ) == (
            Progress { index: (i + 1) as usize, attempts: 0, failed: false },
            requests_for(plan, i as int, (k - j) as nat).push(
                EnableStep::Settle { kind: plan[i as int].kind, pause_ms: settle_ms },
            ),
        ),
    decreases k - j,
{
    let p = Progress { index: i, attempts: j, failed: false };
    let settle = EnableStep::Settle { kind: plan[i as int].kind, pause_ms: settle_ms };
    if j as nat == k {
        let q = Progress { index: (i + 1) as usize, attempts: 0, failed: false };
        assert(run_against(plan, settle_ms, q, k, 0) == (q, Seq::<EnableStep>::empty()));
        assert(seq![settle] + Seq::<EnableStep>::empty() =~= requests_for(plan, i as int, 0).push(settle));
    } else {
        let q = Progress { index: i, attempts: (j + 1) as u32, failed: false };
        lemma_enabled_from(plan, settle_ms, i, (j + 1) as u32, k);
        let req = EnableStep::Request { kind: plan[i as int].kind, interval_ms: plan[i as int].interval_ms };
        assert(advance(plan, settle_ms, p, p.attempts >= k) == (q, req));
        assert(seq![req] + requests_for(plan, i as int, (k - j - 1) as nat).push(settle)
            =~= requests_for(plan, i as int, (k - j) as nat).push(settle));
    }
}

/// Against a device that reports a report enabled once it has been asked
/// `k` times, with `k` at most five: the report is requested exactly `k`
/// times, then confirmed, and the sequence moves on to the next report.
pub proof fn lemma_enabled_after_k_requests(plan: Seq<ReportRequest>, settle_ms: u32, i: usize, k: nat)
    requires
        i < plan.len(),
        k <= MAX_ENABLE_TRIES,
    ensures
        run_against(plan, settle_ms, Progress { index: i, attempts: 0, failed: false }, k, k + 1)
            == (
            Progress { index: (i + 1) as usize, attempts: 0, failed: false },
            requests_for(plan, i as int, k).push(
                EnableStep::Settle { kind: plan[i as int].kind, pause_ms: settle_ms },
            ),
        ),
{
    lemma_enabled_from(plan, settle_ms, i, 0, k);
}

proof fn lemma_never_enabled_from(plan: Seq<ReportRequest>, settle_ms: u32, i: usize, j: u32, k: nat)
    requires
        i < plan.len(),
        j <= MAX_ENABLE_TRIES,
        k > MAX_ENABLE_TRIES,
    ensures
        run_against(
            plan,
            settle_ms,
            Progress { index: i, attempts: j, failed: false },
            k,
            (MAX_ENABLE_TRIES - j + 1) as nat,
        ) == (
            Progress { index: i, attempts: MAX_ENABLE_TRIES, failed: true },
            requests_for(plan, i as int, (MAX_ENABLE_TRIES - j) as nat).push(
                EnableStep::Failed { kind: plan[i as int].kind },
            ),
        ),
    decreases MAX_ENABLE_TRIES - j,
{
    let p = Progress { index: i, attempts: j, failed: false };
    let failed = EnableStep::Failed { kind: plan[i as int].kind };
    if j == MAX_ENABLE_TRIES {
        let q = Progress { index: i, attempts: MAX_ENABLE_TRIES, failed: true };
        assert(run_against(plan, settle_ms, q, k, 0) == (q, Seq::<EnableStep>::empty()));
        assert(seq![failed] + Seq::<EnableStep>::empty() =~= requests_for(plan, i as int, 0).push(failed));
    } else {
        let q = Progress { index: i, attempts: (j + 1) as u32, failed: false };
        lemma_never_enabled_from(plan, settle_ms, i, (j + 1) as u32, k);
        let req = EnableStep::Request { kind: plan[i as int].kind, interval_ms: plan[i as int].interval_ms };
        assert(advance(plan, settle_ms, p, p.attempts >= k) == (q, req));
        assert(seq![req] + requests_for(plan, i as int, (MAX_ENABLE_TRIES - j - 1) as nat).push(failed)
            =~= requests_for(plan, i as int, (MAX_ENABLE_TRIES - j) as nat).push(failed));
    }
}

/// Against a device that never reports a report enabled within five
/// requests: the report is requested exactly five times, the sequence then
/// fails on it, and however long it is driven afterwards it takes no further
/// step, so no later report is ever requested.
pub proof fn lemma_never_enabled_fails(
    plan: Seq<ReportRequest>,
    settle_ms: u32,
    i: usize,
    k: nat,
    more: nat,
)
    requires
        i < plan.len(),
        k > MAX_ENABLE_TRIES,
    ensures
        run_against(
            plan,
            settle_ms,
            Progress { index: i, attempts: 0, failed: false },
            k,
            (MAX_ENABLE_TRIES + 1) as nat,
        ) == (
            Progress { index: i, attempts: MAX_ENABLE_TRIES, failed: true },
            requests_for(plan, i as int, MAX_ENABLE_TRIES as nat).push(
                EnableStep::Failed { kind: plan[i as int].kind },
            ),
        ),
        run_against(
            plan,
            settle_ms,
            Progress { index: i, attempts: MAX_ENABLE_TRIES, failed: true },
            k,
            more,
        ) == (Progress { index: i, attempts: MAX_ENABLE_TRIES, failed: true }, Seq::<EnableStep>::empty()),
{
    lemma_never_enabled_from(plan, settle_ms, i, 0, k);
}

proof fn lemma_run_split(plan: Seq<ReportRequest>, settle_ms: u32, p: Progress, k: nat, a: nat, b: nat)
    ensures
        ({
            let first = run_against(plan, settle_ms, p, k, a);
            let second = run_against(plan, settle_ms, first.0, k, b);
            run_against(plan, settle_ms, p, k, a + b) == (second.0, first.1 + second.1)
        }),
    decreases a,
{
    if a == 0 {
        assert(Seq::<EnableStep>::empty() + run_against(plan, settle_ms, p, k, b).1
            =~= run_against(plan, settle_ms, p, k, b).1);
    } else if p.failed || p.index >= plan.len() {
        assert(Seq::<EnableStep>::empty() + Seq::<EnableStep>::empty() =~= Seq::<EnableStep>::empty());
    } else {
        let step = advance(plan, settle_ms, p, p.attempts >= k);
        lemma_run_split(plan, settle_ms, step.0, k, (a - 1) as nat, b);
        assert((a + b - 1) as nat == (a - 1) as nat + b);
        let first = run_against(plan, settle_ms, step.0, k, (a - 1) as nat);
        let second = run_against(plan, settle_ms, first.0, k, b);
        assert(seq![step.1] + (first.1 + second.1) =~= (seq![step.1] + first.1) + second.1);
    }
}

proof fn lemma_plan_enabled_from(plan: Seq<ReportRequest>, settle_ms: u32, i: usize, k: nat)
    requires
        i <= plan.len(),
        plan.len() <= usize::MAX,
        k <= MAX_ENABLE_TRIES,
    ensures
        run_against(
            plan,
            settle_ms,
            Progress { index: i, attempts: 0, failed: false },
            k,
            ((plan.len() - i) * (k + 1)) as nat,
        ).0 == (Progress { index: plan.len() as usize, attempts: 0, failed: false }),
    decreases plan.len() - i,
{
    let p = Progress { index: i, attempts: 0, failed: false };
    if i < plan.len() {
        let rest = ((plan.len() - i - 1) * (k + 1)) as nat;
        assert((plan.len() - i) * (k + 1) == (k + 1) + (plan.len() - i - 1) * (k + 1))
            by (nonlinear_arith);
        lemma_enabled_after_k_requests(plan, settle_ms, i, k);
        lemma_run_split(plan, settle_ms, p, k, k + 1, rest);
        lemma_plan_enabled_from(plan, settle_ms, (i + 1) as usize, k);
    }
}

/// Against a device that reports each report enabled once it has been asked
/// `k` times, with `k` at most five, a fresh sequence over any plan enables
/// every report: after `k + 1` answers per report it is complete.
pub proof fn lemma_plan_enabled(plan: Seq<ReportRequest>, settle_ms: u32, k: nat)
    requires
        plan.len() <= usize::MAX,
        k <= MAX_ENABLE_TRIES,
    ensures
        run_against(
            plan,
            settle_ms,
            Progress { index: 0, attempts: 0, failed: false },
            k,
            plan.len() * (k + 1),
        ).0 == (Progress { index: plan.len() as usize, attempts: 0, failed: false }),
{
    lemma_plan_enabled_from(plan, settle_ms, 0, k);
}

} // verus!
