//! Supervisory logic for an inertial measurement unit bridged to a
//! publish/subscribe bus: report enablement with bounded retries, stall
//! detection, session lifecycle and the process-level failure budget.
//!
//! Every decision is a verified transition from state and event to next state
//! and action; the hardware driver, the transport and the clock are driven by
//! the caller.

mod enable;
mod escalation;
mod liveness;
mod provision;
mod report;
mod stamp;
mod status;

pub use enable::{
    advance, lemma_enabled_after_k_requests, lemma_never_enabled_fails, lemma_plan_enabled,
    requests_for, run_against, EnableStep, Enabler, Progress, MAX_ENABLE_TRIES,
    PROVISIONING_SETTLE_MS, SESSION_SETTLE_MS,
};
pub use escalation::{
    count_after, lemma_short_sessions_exhaust, lemma_success_resets_budget, FailureBudget,
    MAX_CONSECUTIVE_FAILURES, SUCCESS_TIME_LIMIT_NS,
};
pub use liveness::{
    lemma_stall_points, session_elapsed, stall_threshold, stalled, LastActivity, Phase, Session,
    COLD_START_FACTOR, HANDLE_MAX_EVENTS, HANDLE_TIMEOUT_MS, NS_PER_MS, POLL_INTERVAL_MS,
};
pub use provision::{OrientationWrite, MAX_WRITE_TRIES, WRITE_TIMEOUT_MS};
pub use report::{
    session_plan, session_reports, ReportKind, ReportRequest, ACCELEROMETER_UPDATE_MS,
    GYROSCOPE_UPDATE_MS, MAGNETIC_FIELD_UPDATE_MS, ROTATION_VECTOR_UPDATE_MS,
};
pub use stamp::{lemma_stamp_order, stamp_ns, Stamp, NS_PER_SEC};
pub use status::ImuStatus;
