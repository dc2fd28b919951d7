//! Spans of time as plain values: whole seconds and the nanoseconds past them.

use vstd::prelude::*;

verus! {

/// Nanoseconds in one second.
pub const NANOS_PER_SEC: u32 = 1_000_000_000;

/// A span of time, laid out as `std::time::Duration` is: whole seconds, and
/// the nanoseconds past the last whole second.
#[derive(Clone, Copy, Debug, PartialEq, Eq, Structural)]
pub struct TimeSpan {
    pub secs: u64,
    pub nanos: u32,
}

impl TimeSpan {
    /// A span is well formed when its nanoseconds stay under one second.
    pub open spec fn wf(self) -> bool {
        self.nanos < NANOS_PER_SEC
    }

    /// The length of the span in nanoseconds.
    pub open spec fn total_nanos(self) -> nat {
        (self.secs * (NANOS_PER_SEC as nat) + self.nanos) as nat
    }

    /// A span of `secs` whole seconds.
    pub fn from_secs(secs: u64) -> (span: TimeSpan)
        ensures
            span.wf(),
            span.secs == secs,
            span.nanos == 0,
            span.total_nanos() == secs * (NANOS_PER_SEC as nat),
    {
        TimeSpan { secs, nanos: 0 }
    }

    /// A span of `millis` milliseconds.
    pub fn from_millis(millis: u64) -> (span: TimeSpan)
        ensures
            span.wf(),
            span.total_nanos() == millis * 1_000_000,
    {
        let secs: u64 = millis / 1000;
        let rest: u64 = millis % 1000;
        let nanos: u32 = (rest * 1_000_000) as u32;
        assert(secs * 1_000_000_000 + rest * 1_000_000 == millis * 1_000_000) by (nonlinear_arith)
            requires
                secs == millis / 1000,
                rest == millis % 1000,
        ;
        TimeSpan { secs, nanos }
    }

    /// The longest span: as many whole seconds as fit a `u64`, and one
    /// nanosecond short of one more.
    pub fn max_span() -> (span: TimeSpan)
        ensures
            span.wf(),
            span.secs == u64::MAX,
            span.nanos == NANOS_PER_SEC - 1,
            forall|t: TimeSpan| t.wf() ==> #[trigger] t.total_nanos() <= span.total_nanos(),
    {
        let span = TimeSpan { secs: u64::MAX, nanos: NANOS_PER_SEC - 1 };
        assert forall|t: TimeSpan| t.wf() implies #[trigger] t.total_nanos() <= span.total_nanos() by {
            assert(t.secs * (NANOS_PER_SEC as nat) <= u64::MAX * (NANOS_PER_SEC as nat)) by (nonlinear_arith)
                requires
                    t.secs <= u64::MAX,
            ;
        }
        span
    }

    /// The length of the span in nanoseconds, as a `u128`.
    pub fn as_nanos(&self) -> (n: u128)
        ensures
            n == self.total_nanos(),
    {
        assert(self.secs * 1_000_000_000 <= u64::MAX * 1_000_000_000) by (nonlinear_arith)
            requires
                self.secs <= u64::MAX,
        ;
        (self.secs as u128) * 1_000_000_000 + (self.nanos as u128)
    }

    /// Whether this span is strictly longer than `other`.
    pub fn is_longer_than(&self, other: &TimeSpan) -> (longer: bool)
        ensures
            longer == (self.total_nanos() > other.total_nanos()),
    {
        self.as_nanos() > other.as_nanos()
    }
}

} // verus!
