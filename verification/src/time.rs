//! Durations and points in time, counted in nanoseconds.

use vstd::prelude::*;

verus! {

/// Number of values of a 64-bit word.
pub const WORD_SPAN: u128 = 0x1_0000_0000_0000_0000;

/// Nanoseconds in one millisecond.
pub const NANOS_PER_MILLI: u128 = 1_000_000;

/// Length of time.
#[derive(Clone, Copy, Debug, PartialEq, Eq, Structural)]
pub struct Span {
    pub nanos: u128,
}

/// Point on the monotonic clock.
#[derive(Clone, Copy, Debug, PartialEq, Eq, Structural)]
pub struct Moment {
    pub nanos: u128,
}

/// Span of a number of milliseconds.
pub open spec fn millis_span(millis: nat) -> Span {
    Span { nanos: (millis * 1_000_000) as u128 }
}

/// Whole milliseconds of a span, modulo the range of a 64-bit word.
pub open spec fn whole_millis(span: Span) -> u64 {
    ((span.nanos as int / 1_000_000) % 0x1_0000_0000_0000_0000) as u64
}

/// Shorter of two spans.
pub open spec fn shorter(a: Span, b: Span) -> Span {
    if b.nanos < a.nanos {
        b
    } else {
        a
    }
}

/// Time from `now` until `deadline`, zero where the deadline has passed.
pub open spec fn time_until(deadline: Moment, now: Moment) -> Span {
    if deadline.nanos > now.nanos {
        Span { nanos: (deadline.nanos - now.nanos) as u128 }
    } else {
        Span { nanos: 0 }
    }
}

/// Whole milliseconds of a span, or the largest 64-bit number where there are more.
pub open spec fn capped_millis(span: Span) -> u64 {
    if span.nanos as nat / 1_000_000 > u64::MAX {
        u64::MAX
    } else {
        (span.nanos as nat / 1_000_000) as u64
    }
}

impl Span {
    /// Span of no length.
    pub fn zero() -> (r: Self)
        ensures
            r == (Span { nanos: 0 }),
    {
        Span { nanos: 0 }
    }

    /// Span of `millis` milliseconds.
    pub fn from_millis(millis: u64) -> (r: Self)
        ensures
            r == millis_span(millis as nat),
            r.nanos == millis * 1_000_000,
    {
        Span { nanos: millis as u128 * 1_000_000 }
    }

    /// Span of `secs` seconds.
    pub fn from_secs(secs: u64) -> (r: Self)
        ensures
            r.nanos == secs * 1_000_000_000,
    {
        Span { nanos: secs as u128 * 1_000_000_000 }
    }

    /// Whole milliseconds, cut to 64 bits.
    pub fn as_millis(self) -> (r: u64)
        ensures
            r == whole_millis(self),
    {
        ((self.nanos / NANOS_PER_MILLI) % WORD_SPAN) as u64
    }

    /// Whole milliseconds, or the largest 64-bit number where there are more.
    pub fn saturating_millis(self) -> (r: u64)
        ensures
            r == capped_millis(self),
    {
        let millis: u128 = self.nanos / NANOS_PER_MILLI;
        if millis > u64::MAX as u128 {
            u64::MAX
        } else {
            millis as u64
        }
    }

    /// Whether the span has no length.
    pub fn is_zero(self) -> (r: bool)
        ensures
            r == (self.nanos == 0),
    {
        self.nanos == 0
    }

    /// Shorter of the two spans.
    pub fn min(self, other: Span) -> (r: Span)
        ensures
            r == shorter(self, other),
    {
        if other.nanos < self.nanos {
            other
        } else {
            self
        }
    }
}

impl Moment {
    /// Moment after the span.
    pub fn plus(self, span: Span) -> (r: Moment)
        requires
            self.nanos + span.nanos <= u128::MAX,
        ensures
            r.nanos == self.nanos + span.nanos,
    {
        Moment { nanos: self.nanos + span.nanos }
    }

    /// Time left from `now` until this moment.
    pub fn since(self, now: Moment) -> (r: Span)
        ensures
            r == time_until(self, now),
    {
        if self.nanos > now.nanos {
            Span { nanos: self.nanos - now.nanos }
        } else {
            Span { nanos: 0 }
        }
    }
}

/// Milliseconds that fit a 64-bit word survive the way through a span.
pub proof fn millis_round_trip(millis: u64)
    ensures
        whole_millis(millis_span(millis as nat)) == millis,
{
    assert(millis * 1_000_000 < 0x1_0000_0000_0000_0000_0000_0000_0000_0000int);
    assert(millis_span(millis as nat).nanos == millis * 1_000_000);
}

} // verus!
