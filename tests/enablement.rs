use edgefirst_imu::{
    session_plan, EnableStep, Enabler, ReportKind, ReportRequest, ACCELEROMETER_UPDATE_MS,
    GYROSCOPE_UPDATE_MS, MAGNETIC_FIELD_UPDATE_MS, MAX_ENABLE_TRIES, PROVISIONING_SETTLE_MS,
    ROTATION_VECTOR_UPDATE_MS, SESSION_SETTLE_MS,
};

/// A device that reports a kind enabled once it was asked `ready_after`
/// times, or never when `ready_after` is `None`.
struct FakeDevice {
    ready_after: Option<u32>,
    requests: Vec<(ReportKind, u16)>,
    pauses: Vec<u32>,
}

impl FakeDevice {
    fn new(ready_after: Option<u32>) -> Self {
        FakeDevice { ready_after, requests: Vec::new(), pauses: Vec::new() }
    }

    fn requests_for(&self, kind: ReportKind) -> u32 {
        self.requests.iter().filter(|(k, _)| *k == kind).count() as u32
    }

    fn is_enabled(&self, kind: ReportKind) -> bool {
        match self.ready_after {
            Some(k) => self.requests_for(kind) >= k,
            None => false,
        }
    }

    /// Drives the sequence to its end; returns the kind it failed on, if any.
    fn run(&mut self, enabler: &mut Enabler) -> Option<ReportKind> {
        while let Some(kind) = enabler.pending() {
            match enabler.observe(self.is_enabled(kind)) {
                EnableStep::Request { kind, interval_ms } => self.requests.push((kind, interval_ms)),
                EnableStep::Settle { pause_ms, .. } => self.pauses.push(pause_ms),
                EnableStep::Failed { kind } => return Some(kind),
            }
        }
        None
    }
}

#[test]
fn session_plan_order_and_rates() {
    let plan = session_plan();
    assert_eq!(
        plan,
        vec![
            ReportRequest { kind: ReportKind::Orientation, interval_ms: 33 },
            ReportRequest { kind: ReportKind::LinearAcceleration, interval_ms: 100 },
            ReportRequest { kind: ReportKind::AngularVelocity, interval_ms: 100 },
            ReportRequest { kind: ReportKind::MagneticField, interval_ms: 300 },
        ]
    );
    assert_eq!(ROTATION_VECTOR_UPDATE_MS, 33);
    assert_eq!(ACCELEROMETER_UPDATE_MS, 100);
    assert_eq!(GYROSCOPE_UPDATE_MS, 100);
    assert_eq!(MAGNETIC_FIELD_UPDATE_MS, 300);
}

#[test]
fn enabled_after_k_requests_succeeds() {
    for k in 0..=5u32 {
        let mut device = FakeDevice::new(Some(k));
        let mut enabler = Enabler::for_session();
        assert_eq!(device.run(&mut enabler), None);
        assert!(enabler.is_complete());
        assert!(!enabler.has_failed());
        for kind in [
            ReportKind::Orientation,
            ReportKind::LinearAcceleration,
            ReportKind::AngularVelocity,
            ReportKind::MagneticField,
        ] {
            assert_eq!(device.requests_for(kind), k);
        }
        assert_eq!(device.pauses, vec![100, 100, 100, 100]);
    }
}

#[test]
fn already_enabled_sends_no_request() {
    let mut device = FakeDevice::new(Some(0));
    let mut enabler = Enabler::for_session();
    assert_eq!(device.run(&mut enabler), None);
    assert!(device.requests.is_empty());
}

#[test]
fn requests_carry_each_reports_interval() {
    let mut device = FakeDevice::new(Some(1));
    let mut enabler = Enabler::for_session();
    assert_eq!(device.run(&mut enabler), None);
    assert_eq!(
        device.requests,
        vec![
            (ReportKind::Orientation, 33),
            (ReportKind::LinearAcceleration, 100),
            (ReportKind::AngularVelocity, 100),
            (ReportKind::MagneticField, 300),
        ]
    );
}

#[test]
fn never_enabled_fails_after_five_requests() {
    let mut device = FakeDevice::new(None);
    let mut enabler = Enabler::for_session();
    assert_eq!(device.run(&mut enabler), Some(ReportKind::Orientation));
    assert_eq!(device.requests.len(), 5);
    assert_eq!(device.requests_for(ReportKind::Orientation), MAX_ENABLE_TRIES);
    assert_eq!(device.requests_for(ReportKind::LinearAcceleration), 0);
    assert!(enabler.has_failed());
    assert!(!enabler.is_complete());
    assert_eq!(enabler.pending(), None);
}

#[test]
fn six_requests_needed_is_a_failure() {
    let mut device = FakeDevice::new(Some(6));
    let mut enabler = Enabler::for_session();
    assert_eq!(device.run(&mut enabler), Some(ReportKind::Orientation));
    assert_eq!(device.requests.len(), 5);
}

#[test]
fn failure_on_a_later_kind_stops_there() {
    let mut enabler = Enabler::for_session();
    // The first report comes up at once; the second never does.
    assert_eq!(
        enabler.observe(true),
        EnableStep::Settle { kind: ReportKind::Orientation, pause_ms: SESSION_SETTLE_MS }
    );
    for _ in 0..5 {
        assert_eq!(
            enabler.observe(false),
            EnableStep::Request { kind: ReportKind::LinearAcceleration, interval_ms: 100 }
        );
    }
    assert_eq!(enabler.observe(false), EnableStep::Failed { kind: ReportKind::LinearAcceleration });
    assert_eq!(enabler.pending(), None);
}

#[test]
fn provisioning_enables_the_accelerometer_only() {
    let mut device = FakeDevice::new(Some(2));
    let mut enabler = Enabler::for_provisioning();
    assert_eq!(enabler.pending(), Some(ReportKind::LinearAcceleration));
    assert_eq!(device.run(&mut enabler), None);
    assert_eq!(device.requests, vec![(ReportKind::LinearAcceleration, 100), (ReportKind::LinearAcceleration, 100)]);
    assert_eq!(device.pauses, vec![PROVISIONING_SETTLE_MS]);
    assert_eq!(PROVISIONING_SETTLE_MS, 1000);
}

#[test]
fn empty_plan_is_complete() {
    let enabler = Enabler::new(Vec::new(), 7);
    assert_eq!(enabler.pending(), None);
    assert!(enabler.is_complete());
}
