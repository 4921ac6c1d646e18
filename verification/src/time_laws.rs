//! Laws of spans and moments.

use vstd::prelude::*;
use crate::time::{capped_millis, millis_span, shorter, time_until, whole_millis, Moment, Span};

verus! {

/// The shorter of two spans is one of them and no longer than either.
pub proof fn shorter_is_no_longer(a: Span, b: Span)
    ensures
        shorter(a, b).nanos <= a.nanos,
        shorter(a, b).nanos <= b.nanos,
        shorter(a, b) == a || shorter(a, b) == b,
{
}

/// The time until a deadline leads from now to the deadline, and is nothing once that has passed.
pub proof fn time_until_leads_to_the_deadline(deadline: Moment, now: Moment)
    ensures
        now.nanos <= deadline.nanos ==> now.nanos + time_until(deadline, now).nanos
            == deadline.nanos,
        now.nanos >= deadline.nanos ==> time_until(deadline, now).nanos == 0,
{
}

/// The milliseconds of a span are the whole ones in it, and the largest number where it holds more.
pub proof fn whole_milliseconds_are_counted(span: Span)
    ensures
        capped_millis(span) < u64::MAX ==> capped_millis(span) * 1_000_000 <= span.nanos && span.nanos
            < (capped_millis(span) + 1) * 1_000_000,
        capped_millis(span) == u64::MAX <==> span.nanos >= u64::MAX * 1_000_000,
        span.nanos < u64::MAX * 1_000_000 ==> whole_millis(span) == capped_millis(span),
{
}

/// A span of so many milliseconds holds so many.
pub proof fn span_of_milliseconds_holds_them(millis: u64)
    ensures
        capped_millis(millis_span(millis as nat)) == millis,
        whole_millis(millis_span(millis as nat)) == millis,
{
}

} // verus!
