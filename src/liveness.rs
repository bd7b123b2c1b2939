//! The liveness supervisor: one session of the sensor link's life, from
//! initialisation through report enablement to polling, ending when the link
//! fails or stalls.
//!
//! Times are nanoseconds on a monotonic clock of the caller's choosing.

use vstd::prelude::*;

verus! {

/// Before the first publish the stall timeout is this many times longer, a
/// grace period for a cold start.
pub const COLD_START_FACTOR: u128 = 5;

pub const NS_PER_MS: u128 = 1_000_000;

/// Events the device's message queue is serviced for per poll.
pub const HANDLE_MAX_EVENTS: usize = 2;

/// How long one servicing of the message queue may block.
pub const HANDLE_TIMEOUT_MS: u32 = 10;

/// Pause between two polls.
pub const POLL_INTERVAL_MS: u32 = 2;

/// How long the link may go without a publish before it counts as stalled.
pub open spec fn stall_threshold(timeout_ms: u64, has_started: bool) -> int {
    if has_started {
        timeout_ms * NS_PER_MS
    } else {
        COLD_START_FACTOR * timeout_ms * NS_PER_MS
    }
}

/// When the last message went out, and whether any did.
#[derive(Debug, Clone, Copy, PartialEq, Eq, Structural)]
pub struct LastActivity {
    pub timestamp_ns: u128,
    pub has_started: bool,
}

/// At `now_ns`, more time than the threshold has passed since the last publish.
pub open spec fn stalled(a: LastActivity, now_ns: int, timeout_ms: u64) -> bool {
    now_ns - a.timestamp_ns > stall_threshold(timeout_ms, a.has_started)
}

impl LastActivity {
    /// No publish yet; the clock starts at `now_ns`.
    pub fn new(now_ns: u128) -> (r: Self)
        ensures
            r.timestamp_ns == now_ns,
            !r.has_started,
    {
        LastActivity { timestamp_ns: now_ns, has_started: false }
    }

    /// A message went out at `now_ns`. The timestamp never moves backwards.
    pub fn record_publish(&mut self, now_ns: u128)
        ensures
            final(self).timestamp_ns == if now_ns > old(self).timestamp_ns {
                now_ns
            } else {
                old(self).timestamp_ns
            },
            final(self).has_started,
    {
        if now_ns > self.timestamp_ns {
            self.timestamp_ns = now_ns;
        }
        self.has_started = true;
    }

    /// The stall threshold in nanoseconds for a timeout of `timeout_ms`.
    pub fn stall_threshold_ns(&self, timeout_ms: u64) -> (r: u128)
        ensures
            r == stall_threshold(timeout_ms, self.has_started),
    {
        assert(timeout_ms * NS_PER_MS <= u64::MAX * NS_PER_MS) by (nonlinear_arith);
        let base = timeout_ms as u128 * NS_PER_MS;
        if self.has_started {
            base
        } else {
            COLD_START_FACTOR * base
        }
    }

    /// Whether the link is stalled at `now_ns`. A clock reading earlier than
    /// the last publish counts as no time passed.
    pub fn is_stalled(&self, now_ns: u128, timeout_ms: u64) -> (r: bool)
        ensures
            r == stalled(*self, now_ns as int, timeout_ms),
    {
        let threshold = self.stall_threshold_ns(timeout_ms);
        if now_ns > self.timestamp_ns {
            now_ns - self.timestamp_ns > threshold
        } else {
            false
        }
    }
}

/// With no publish after `a`, the link stalls only once five times the
/// timeout has passed before the first publish, and exactly the timeout once
/// a message has gone out.
pub proof fn lemma_stall_points(a: LastActivity, timeout_ms: u64)
    ensures
        !a.has_started ==> {
            &&& !stalled(a, a.timestamp_ns + 5 * timeout_ms * NS_PER_MS, timeout_ms)
            &&& stalled(a, a.timestamp_ns + 5 * timeout_ms * NS_PER_MS + 1, timeout_ms)
        },
        a.has_started ==> {
            &&& !stalled(a, a.timestamp_ns + timeout_ms * NS_PER_MS, timeout_ms)
            &&& stalled(a, a.timestamp_ns + timeout_ms * NS_PER_MS + 1, timeout_ms)
        },
{
}

/// Where a session stands.
#[derive(Debug, Clone, Copy, PartialEq, Eq, Structural)]
pub enum Phase {
    Initializing,
    Enabling,
    Polling,
    Stalled,
    Fatal,
}

/// One session: its phase, the stall timeout, when polling began and ended,
/// and the last activity of the report pipeline.
#[derive(Debug, Clone, Copy, PartialEq, Eq, Structural)]
pub struct Session {
    pub phase: Phase,
    pub timeout_ms: u64,
    pub started_ns: u128,
    pub stopped_ns: u128,
    pub activity: LastActivity,
}

/// What a finished session reports to the outer loop: how long it polled,
/// and nothing for one that failed before polling.
pub open spec fn session_elapsed(s: Session) -> int {
    match s.phase {
        Phase::Stalled => if s.stopped_ns >= s.started_ns {
            s.stopped_ns - s.started_ns
        } else {
            0
        },
        _ => 0,
    }
}

impl Session {
    pub open spec fn finished(&self) -> bool {
        self.phase is Stalled || self.phase is Fatal
    }

    pub fn new(timeout_ms: u64) -> (r: Self)
        ensures
            r.phase == Phase::Initializing,
            r.timeout_ms == timeout_ms,
            r.started_ns == 0,
            r.stopped_ns == 0,
            r.activity == (LastActivity { timestamp_ns: 0, has_started: false }),
    {
        Session {
            phase: Phase::Initializing,
            timeout_ms,
            started_ns: 0,
            stopped_ns: 0,
            activity: LastActivity::new(0),
        }
    }

    /// The device link was initialised, or failed to be.
    pub fn init_finished(&mut self, ok: bool)
        requires
            old(self).phase == Phase::Initializing,
        ensures
            final(self).phase == if ok {
                Phase::Enabling
            } else {
                Phase::Fatal
            },
            final(self).timeout_ms == old(self).timeout_ms,
            final(self).started_ns == old(self).started_ns,
            final(self).stopped_ns == old(self).stopped_ns,
            final(self).activity == old(self).activity,
    {
        if ok {
            self.phase = Phase::Enabling;
        } else {
            self.phase = Phase::Fatal;
        }
    }

    /// Report enablement ended at `now_ns`; on success polling begins then,
    /// with no publish yet.
    pub fn enablement_finished(&mut self, ok: bool, now_ns: u128)
        requires
            old(self).phase == Phase::Enabling,
        ensures
            final(self).timeout_ms == old(self).timeout_ms,
            final(self).stopped_ns == old(self).stopped_ns,
            ok ==> {
                &&& final(self).phase == Phase::Polling
                &&& final(self).started_ns == now_ns
                &&& final(self).activity == LastActivity { timestamp_ns: now_ns, has_started: false }
            },
            !ok ==> {
                &&& final(self).phase == Phase::Fatal
                &&& final(self).started_ns == old(self).started_ns
                &&& final(self).activity == old(self).activity
            },
    {
        if ok {
            self.phase = Phase::Polling;
            self.started_ns = now_ns;
            self.activity = LastActivity::new(now_ns);
        } else {
            self.phase = Phase::Fatal;
        }
    }

    /// The report pipeline tried to publish at `now_ns`. Only a publish that
    /// went out counts as activity.
    pub fn publish_finished(&mut self, ok: bool, now_ns: u128)
        requires
            old(self).phase == Phase::Polling,
        ensures
            final(self).phase == Phase::Polling,
            final(self).timeout_ms == old(self).timeout_ms,
            final(self).started_ns == old(self).started_ns,
            final(self).stopped_ns == old(self).stopped_ns,
            ok ==> {
                &&& final(self).activity.has_started
                &&& final(self).activity.timestamp_ns == if now_ns > old(self).activity.timestamp_ns {
                    now_ns
                } else {
                    old(self).activity.timestamp_ns
                }
            },
            !ok ==> final(self).activity == old(self).activity,
    {
        if ok {
            self.activity.record_publish(now_ns);
        }
    }

    /// Checks for a stall at `now_ns`: a stalled session stops polling and
    /// records when. Returns whether it stalled.
    pub fn poll(&mut self, now_ns: u128) -> (stall: bool)
        requires
            old(self).phase == Phase::Polling,
        ensures
            stall == stalled(old(self).activity, now_ns as int, old(self).timeout_ms),
            final(self).phase == if stall {
                Phase::Stalled
            } else {
                Phase::Polling
            },
            final(self).stopped_ns == if stall {
                now_ns
            } else {
                old(self).stopped_ns
            },
            final(self).timeout_ms == old(self).timeout_ms,
            final(self).started_ns == old(self).started_ns,
            final(self).activity == old(self).activity,
    {
        let stall = self.activity.is_stalled(now_ns, self.timeout_ms);
        if stall {
            self.phase = Phase::Stalled;
            self.stopped_ns = now_ns;
        }
        stall
    }

    /// How long a finished session polled: zero for one that failed before.
    pub fn elapsed_ns(&self) -> (r: u128)
        requires
            self.finished(),
        ensures
            r == session_elapsed(*self),
    {
        match self.phase {
            Phase::Stalled => if self.stopped_ns >= self.started_ns {
                self.stopped_ns - self.started_ns
            } else {
                0
            },
            _ => 0,
        }
    }
}

} // verus!
