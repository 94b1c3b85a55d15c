//! Points in time, held as the duration since the Unix epoch.
use vstd::prelude::*;

verus! {

/// A point in time: whole seconds and the nanoseconds past them since the Unix epoch.
#[derive(Clone, Copy, Debug, PartialEq, Eq, Structural)]
pub struct Timestamp {
    pub secs: u64,
    pub nanos: u32,
}

impl Timestamp {
    /// Well-formedness: the nanosecond part stays below one second.
    pub open spec fn wf(self) -> bool {
        self.nanos < 1_000_000_000
    }

    /// The time as a count of nanoseconds since the epoch.
    pub open spec fn total_nanos(self) -> int {
        self.secs * 1_000_000_000 + self.nanos
    }

    /// The whole seconds since the epoch.
    pub fn unix_secs(&self) -> (res: u64)
        ensures
            res == self.secs,
    {
        self.secs
    }

    /// This time moved `secs` seconds later, saturating at the largest representable second.
    pub open spec fn later_by(self, secs: u64) -> Timestamp {
        Timestamp {
            secs: if self.secs + secs <= u64::MAX { (self.secs + secs) as u64 } else { u64::MAX },
            nanos: self.nanos,
        }
    }

    /// This time moved `secs` seconds later; saturates at the largest representable second.
    pub fn plus_secs(&self, secs: u64) -> (res: Timestamp)
        ensures
            res == self.later_by(secs),
    {
        Timestamp { secs: self.secs.saturating_add(secs), nanos: self.nanos }
    }

    /// The whole seconds from `self` until `later`, or 0 when `later` is not after `self`,
    /// as `SystemTime::elapsed` followed by `unwrap_or(0)` and `as_secs` counts them.
    pub fn whole_secs_until(&self, later: &Timestamp) -> (res: u64)
        requires
            self.wf(),
            later.wf(),
        ensures
            later.total_nanos() >= self.total_nanos() ==> res == (later.total_nanos()
                - self.total_nanos()) / 1_000_000_000,
            later.total_nanos() < self.total_nanos() ==> res == 0,
    {
        if later.secs < self.secs || (later.secs == self.secs && later.nanos < self.nanos) {
            0
        } else if later.nanos >= self.nanos {
            let r = later.secs - self.secs;
            assert((later.total_nanos() - self.total_nanos()) == r * 1_000_000_000 + (later.nanos - self.nanos)) by (nonlinear_arith)
                requires
                    r == later.secs - self.secs,
            ;
            assert((r * 1_000_000_000 + (later.nanos - self.nanos)) / 1_000_000_000 == r) by (nonlinear_arith)
                requires
                    0 <= later.nanos - self.nanos < 1_000_000_000,
                    r >= 0,
            ;
            r
        } else {
            let r = later.secs - self.secs - 1;
            assert((later.total_nanos() - self.total_nanos()) == r * 1_000_000_000 + (1_000_000_000 + later.nanos - self.nanos)) by (nonlinear_arith)
                requires
                    r == later.secs - self.secs - 1,
            ;
            assert((r * 1_000_000_000 + (1_000_000_000 + later.nanos - self.nanos)) / 1_000_000_000 == r) by (nonlinear_arith)
                requires
                    0 <= 1_000_000_000 + later.nanos - self.nanos < 1_000_000_000,
                    r >= 0,
            ;
            r
        }
    }
}

/// Reads the system clock through `SystemTime::now` and `SystemTime::duration_since`
/// with the Unix epoch; a clock set before the epoch reads as the epoch itself.
/// Only the range of the nanosecond part is stated: the value depends on the clock.
#[verifier::external_body]
pub fn now() -> (res: Timestamp)
    ensures
        res.wf(),
{
    match std::time::SystemTime::now().duration_since(std::time::UNIX_EPOCH) {
        Ok(d) => Timestamp { secs: d.as_secs(), nanos: d.subsec_nanos() },
        Err(_) => Timestamp { secs: 0, nanos: 0 },
    }
}

} // verus!
