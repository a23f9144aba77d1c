//! Spans of time, for the timeout of a wait.

use vstd::prelude::*;

verus! {

/// How many nanoseconds make a second.
pub const NANOS_PER_SEC: u32 = 1_000_000_000;

/// A span of time: whole seconds and the nanoseconds beyond them, which
/// are always fewer than a second.
#[derive(Debug, Copy, Clone, PartialEq, Eq, Structural)]
pub struct Timeout {
    secs: u64,
    nanos: u32,
}

/// A span of time as the system's wait calls take it.
#[derive(Debug, Copy, Clone, PartialEq, Eq, Structural)]
pub struct Timespec {
    pub tv_sec: i64,
    pub tv_nsec: i64,
}

impl Timeout {
    #[verifier::type_invariant]
    closed spec fn inv(self) -> bool {
        self.nanos < NANOS_PER_SEC
    }

    /// The whole seconds of the span.
    pub closed spec fn spec_secs(self) -> u64 {
        self.secs
    }

    /// The nanoseconds of the span beyond its whole seconds.
    pub closed spec fn spec_nanos(self) -> u32 {
        self.nanos
    }

    /// The span in nanoseconds.
    pub open spec fn total_nanos(self) -> int {
        self.spec_secs() * NANOS_PER_SEC + self.spec_nanos()
    }

    /// The span of `secs` seconds and `nanos` nanoseconds. Nanoseconds that
    /// make up a second or more count as one nanosecond less than a
    /// second.
    pub fn new(secs: u64, nanos: u32) -> (t: Timeout)
        ensures
            t.spec_secs() == secs,
            t.spec_nanos() == if nanos < NANOS_PER_SEC {
                nanos
            } else {
                (NANOS_PER_SEC - 1) as u32
            },
    {
        if nanos < NANOS_PER_SEC {
            Timeout { secs, nanos }
        } else {
            Timeout { secs, nanos: NANOS_PER_SEC - 1 }
        }
    }

    /// The span of no time at all.
    pub fn zero() -> (t: Timeout)
        ensures
            t.total_nanos() == 0,
    {
        Timeout { secs: 0, nanos: 0 }
    }

    /// The whole seconds of the span.
    pub fn secs(&self) -> (s: u64)
        ensures
            s == self.spec_secs(),
    {
        self.secs
    }

    /// The nanoseconds of the span beyond its whole seconds, always fewer
    /// than a second.
    pub fn nanos(&self) -> (n: u32)
        ensures
            n == self.spec_nanos(),
            n < NANOS_PER_SEC,
    {
        proof {
            use_type_invariant(self);
        }
        self.nanos
    }

    /// What is left of the span after `elapsed` has passed: their
    /// difference, or nothing where more has passed than the span holds.
    pub fn saturating_sub(self, elapsed: Timeout) -> (left: Timeout)
        ensures
            left.total_nanos() == if self.total_nanos() >= elapsed.total_nanos() {
                self.total_nanos() - elapsed.total_nanos()
            } else {
                0
            },
    {
        proof {
            use_type_invariant(self);
            use_type_invariant(elapsed);
        }
        if self.secs < elapsed.secs || (self.secs == elapsed.secs && self.nanos < elapsed.nanos) {
            assert(self.total_nanos() < elapsed.total_nanos()) by (nonlinear_arith)
                requires
                    self.secs < elapsed.secs || (self.secs == elapsed.secs && self.nanos
                        < elapsed.nanos),
                    self.nanos < NANOS_PER_SEC,
                    elapsed.nanos < NANOS_PER_SEC,
                    self.total_nanos() == self.secs * NANOS_PER_SEC + self.nanos,
                    elapsed.total_nanos() == elapsed.secs * NANOS_PER_SEC + elapsed.nanos,
            ;
            Timeout { secs: 0, nanos: 0 }
        } else if self.nanos >= elapsed.nanos {
            let left = Timeout { secs: self.secs - elapsed.secs, nanos: self.nanos - elapsed.nanos };
            assert(left.total_nanos() == self.total_nanos() - elapsed.total_nanos())
                by (nonlinear_arith)
                requires
                    left.secs == self.secs - elapsed.secs,
                    left.nanos == self.nanos - elapsed.nanos,
                    self.total_nanos() == self.secs * NANOS_PER_SEC + self.nanos,
                    elapsed.total_nanos() == elapsed.secs * NANOS_PER_SEC + elapsed.nanos,
                    left.total_nanos() == left.secs * NANOS_PER_SEC + left.nanos,
            ;
            left
        } else {
            let left = Timeout {
                secs: self.secs - elapsed.secs - 1,
                nanos: self.nanos + (NANOS_PER_SEC - elapsed.nanos),
            };
            assert(left.total_nanos() == self.total_nanos() - elapsed.total_nanos())
                by (nonlinear_arith)
                requires
                    left.secs == self.secs - elapsed.secs - 1,
                    left.nanos == self.nanos + (NANOS_PER_SEC - elapsed.nanos),
                    self.total_nanos() == self.secs * NANOS_PER_SEC + self.nanos,
                    elapsed.total_nanos() == elapsed.secs * NANOS_PER_SEC + elapsed.nanos,
                    left.total_nanos() == left.secs * NANOS_PER_SEC + left.nanos,
            ;
            left
        }
    }
}

/// Converts a span of time to the form that the system's wait calls take.
/// Seconds beyond what that form can hold are cut down to the most it
/// holds.
pub fn cvt_duration(dur: Timeout) -> (ts: Timespec)
    ensures
        ts.tv_sec == if dur.spec_secs() <= i64::MAX {
            dur.spec_secs() as int
        } else {
            i64::MAX as int
        },
        ts.tv_nsec == dur.spec_nanos(),
{
    let secs = dur.secs();
    let tv_sec: i64 = if secs <= 0x7FFF_FFFF_FFFF_FFFF {
        secs as i64
    } else {
        0x7FFF_FFFF_FFFF_FFFF
    };
    Timespec { tv_sec, tv_nsec: dur.nanos() as i64 }
}

} // verus!
