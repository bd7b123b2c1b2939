use edgefirst_imu::{ImuStatus, OrientationWrite, Stamp, MAX_WRITE_TRIES, NS_PER_SEC};

#[test]
fn stamp_carries_a_reading_exactly() {
    let s = Stamp::from_timespec(12_345, 678_901_234);
    assert_eq!(s, Stamp { sec: 12_345, nanosec: 678_901_234 });
}

#[test]
fn stamp_narrows_out_of_range_seconds() {
    let s = Stamp::from_timespec(i32::MAX as i64 + 1, 0);
    assert_eq!(s.sec, i32::MIN);
}

#[test]
fn later_reading_gives_later_stamp() {
    let a = Stamp::from_timespec(5, NS_PER_SEC as i64 - 1);
    let b = Stamp::from_timespec(6, 0);
    assert!((a.sec, a.nanosec) < (b.sec, b.nanosec));
}

#[test]
fn orientation_write_stops_on_success() {
    let mut w = OrientationWrite::new();
    let mut tries = 0;
    while w.should_attempt() {
        tries += 1;
        w.record(tries == 3);
    }
    assert_eq!(tries, 3);
    assert!(w.succeeded);
}

#[test]
fn orientation_write_gives_up_after_five() {
    let mut w = OrientationWrite::new();
    let mut tries = 0;
    while w.should_attempt() {
        tries += 1;
        w.record(false);
    }
    assert_eq!(tries, 5);
    assert_eq!(w.attempts, MAX_WRITE_TRIES);
    assert!(!w.succeeded);
}

#[test]
fn status_variants_differ() {
    assert_eq!(ImuStatus::Connected, ImuStatus::Connected);
    assert_ne!(ImuStatus::Connected, ImuStatus::NotConnected);
}
