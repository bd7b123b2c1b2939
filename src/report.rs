//! The periodic reports the sensor can emit, and the order and rates at
//! which a session asks for them.

use vstd::prelude::*;

verus! {

/// A category of periodic sensor measurement.
#[derive(Debug, Clone, Copy, PartialEq, Eq, Structural)]
pub enum ReportKind {
    Orientation,
    LinearAcceleration,
    AngularVelocity,
    MagneticField,
}

pub const ROTATION_VECTOR_UPDATE_MS: u16 = 33;

pub const ACCELEROMETER_UPDATE_MS: u16 = 100;

pub const GYROSCOPE_UPDATE_MS: u16 = 100;

pub const MAGNETIC_FIELD_UPDATE_MS: u16 = 300;

/// One report to enable, with its target update interval.
#[derive(Debug, Clone, Copy, PartialEq, Eq, Structural)]
pub struct ReportRequest {
    pub kind: ReportKind,
    pub interval_ms: u16,
}

/// The reports a session enables, in order.
pub open spec fn session_reports() -> Seq<ReportRequest> {
    seq![
        ReportRequest { kind: ReportKind::Orientation, interval_ms: ROTATION_VECTOR_UPDATE_MS },
        ReportRequest { kind: ReportKind::LinearAcceleration, interval_ms: ACCELEROMETER_UPDATE_MS },
        ReportRequest { kind: ReportKind::AngularVelocity, interval_ms: GYROSCOPE_UPDATE_MS },
        ReportRequest { kind: ReportKind::MagneticField, interval_ms: MAGNETIC_FIELD_UPDATE_MS },
    ]
}

pub fn session_plan() -> (r: Vec<ReportRequest>)
    ensures
        r@ == session_reports(),
{
    let mut r: Vec<ReportRequest> = Vec::new();
    r.push(ReportRequest { kind: ReportKind::Orientation, interval_ms: ROTATION_VECTOR_UPDATE_MS });
    r.push(ReportRequest { kind: ReportKind::LinearAcceleration, interval_ms: ACCELEROMETER_UPDATE_MS });
    r.push(ReportRequest { kind: ReportKind::AngularVelocity, interval_ms: GYROSCOPE_UPDATE_MS });
    r.push(ReportRequest { kind: ReportKind::MagneticField, interval_ms: MAGNETIC_FIELD_UPDATE_MS });
    assert(r@ =~= session_reports());
    r
}

} // verus!
