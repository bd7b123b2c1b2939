//! Message timestamps: a reading of a monotonic clock as carried on the wire,
//! whole seconds in 32 bits and the nanoseconds within the second.

use vstd::prelude::*;

verus! {

pub const NS_PER_SEC: u32 = 1_000_000_000;

#[derive(Debug, Clone, Copy, PartialEq, Eq, Structural)]
pub struct Stamp {
    pub sec: i32,
    pub nanosec: u32,
}

/// The instant a stamp stands for, in nanoseconds.
pub open spec fn stamp_ns(s: Stamp) -> int {
    s.sec * NS_PER_SEC + s.nanosec
}

impl Stamp {
    /// The stamp of a clock reading of `tv_sec` seconds and `tv_nsec`
    /// nanoseconds. A value that does not fit the wire's width is narrowed
    /// as Rust's `as` narrows it.
    pub fn from_timespec(tv_sec: i64, tv_nsec: i64) -> (r: Self)
        ensures
            i32::MIN <= tv_sec <= i32::MAX ==> r.sec == tv_sec,
            0 <= tv_nsec <= u32::MAX ==> r.nanosec == tv_nsec,
    {
        let sec = #[verifier::truncate] (tv_sec as i32);
        let nanosec = #[verifier::truncate] (tv_nsec as u32);
        Stamp { sec, nanosec }
    }
}

/// Stamps keep the order of the clock readings they carry: for readings
/// within the wire's range, which `Stamp::from_timespec` carries exactly, a
/// later reading gives a later stamp.
pub proof fn lemma_stamp_order(a: Stamp, b: Stamp, s1: i64, n1: i64, s2: i64, n2: i64)
    requires
        0 <= s1 <= s2 <= i32::MAX,
        0 <= n1 < NS_PER_SEC,
        0 <= n2 < NS_PER_SEC,
        s1 < s2 || n1 < n2,
        a.sec == s1 && a.nanosec == n1,
        b.sec == s2 && b.nanosec == n2,
    ensures
        stamp_ns(a) < stamp_ns(b),
{
    if s1 < s2 {
        assert(s1 * NS_PER_SEC + n1 < s2 * NS_PER_SEC + n2) by (nonlinear_arith)
            requires
                s1 < s2,
                0 <= n1 < NS_PER_SEC,
                0 <= n2,
        ;
    }
}

} // verus!
