//! Provisioning: writing the device's persistent orientation record, with a
//! bounded number of attempts. The accelerometer report is enabled first
//! (see `Enabler::for_provisioning`), as the device only accepts writes while
//! it has something to report.

use vstd::prelude::*;

verus! {

/// Writes of the orientation record tried before giving up.
pub const MAX_WRITE_TRIES: u32 = 5;

/// How long one write may take to be acknowledged.
pub const WRITE_TIMEOUT_MS: u32 = 2000;

#[derive(Debug, Clone, Copy, PartialEq, Eq, Structural)]
pub struct OrientationWrite {
    pub attempts: u32,
    pub succeeded: bool,
}

impl OrientationWrite {
    pub open spec fn wf(&self) -> bool {
        self.attempts <= MAX_WRITE_TRIES
    }

    /// Another write is due: none succeeded and fewer than five were tried.
    pub open spec fn due(&self) -> bool {
        self.attempts < MAX_WRITE_TRIES && !self.succeeded
    }

    pub fn new() -> (r: Self)
        ensures
            r.attempts == 0,
            !r.succeeded,
            r.wf(),
    {
        OrientationWrite { attempts: 0, succeeded: false }
    }

    pub fn should_attempt(&self) -> (r: bool)
        ensures
            r == self.due(),
    {
        self.attempts < MAX_WRITE_TRIES && !self.succeeded
    }

    /// Records the outcome of one write.
    pub fn record(&mut self, ok: bool)
        requires
            old(self).wf(),
            old(self).due(),
        ensures
            final(self).wf(),
            final(self).attempts == old(self).attempts + 1,
            final(self).succeeded == ok,
    {
        self.attempts = self.attempts + 1;
        self.succeeded = ok;
    }
}

} // verus!
