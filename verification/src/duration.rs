//! Time spans, counted in whole nanoseconds.

use vstd::prelude::*;

verus! {

/// Nanoseconds in a millisecond.
pub const NANOS_PER_MILLI: u32 = 1_000_000;

/// A span of time: whole seconds and a rest in nanoseconds.
#[derive(Clone, Copy, Debug, PartialEq, Eq)]
pub struct Duration {
    pub secs: u64,
    pub nanos: u32,
}

impl Duration {
    /// The length of the span in nanoseconds.
    pub open spec fn total_nanos(self) -> nat {
        (self.secs * 1_000_000_000 + self.nanos) as nat
    }

    /// The span of `millis` milliseconds.
    pub open spec fn of_millis(millis: u64) -> Duration {
        Duration { secs: millis / 1000, nanos: (millis % 1000 * 1_000_000) as u32 }
    }

    /// The whole milliseconds of the span.
    pub open spec fn whole_millis(self) -> nat {
        self.total_nanos() / 1_000_000
    }

    /// The span of `millis` milliseconds.
    pub fn from_millis(millis: u64) -> (span: Duration)
        ensures
            span == Duration::of_millis(millis),
            span.total_nanos() == millis * 1_000_000,
            span.nanos < 1_000_000_000,
    {
        Duration { secs: millis / 1000, nanos: (millis % 1000) as u32 * NANOS_PER_MILLI }
    }

    /// The whole milliseconds of the span; the rest is cut off.
    pub fn as_millis(&self) -> (millis: u128)
        ensures
            millis == self.whole_millis(),
    {
        self.secs as u128 * 1000 + (self.nanos / NANOS_PER_MILLI) as u128
    }

    /// The whole milliseconds of the span in 64 bits. A span of more than
    /// half a billion years wraps around.
    pub fn millis_u64(&self) -> (millis: u64)
        ensures
            millis == self.whole_millis() as int % (u64::MAX + 1),
    {
        let millis: u128 = self.as_millis();
        assert(millis as u64 == millis % 0x1_0000_0000_0000_0000) by (bit_vector);
        #[verifier::truncate]
        let low: u64 = millis as u64;
        low
    }
}

/// Going to milliseconds and back keeps a span but for what lies below a
/// millisecond, as long as the count fits in 64 bits.
pub proof fn millis_round_trip(span: Duration)
    requires
        span.whole_millis() <= u64::MAX,
    ensures
        Duration::of_millis(span.whole_millis() as u64).total_nanos() <= span.total_nanos(),
        span.total_nanos() < Duration::of_millis(span.whole_millis() as u64).total_nanos()
            + 1_000_000,
{
}

/// A span is its seconds and its nanoseconds together, and its milliseconds
/// are those of both, cut off.
pub proof fn span_in_units(span: Duration, millis: u64)
    ensures
        span.total_nanos() == span.secs * 1_000_000_000 + span.nanos,
        span.whole_millis() == span.secs * 1000 + span.nanos / 1_000_000,
        Duration::of_millis(millis).secs * 1000 * 1_000_000 + Duration::of_millis(millis).nanos
            == millis * 1_000_000,
        Duration::of_millis(millis).nanos < 1_000_000_000,
{
}

} // verus!
