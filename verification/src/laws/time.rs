//! Laws of durations and points in time.
use vstd::prelude::*;

use crate::time;
use crate::time::{Duration, Timestamp};

verus! {

/// The whole milliseconds of a duration are those that fit into it.
pub proof fn law_whole_milliseconds(duration: Duration)
    ensures
        duration.millis() * 1_000_000 <= duration@ < (duration.millis() + 1) * 1_000_000,
{
}

/// A number is clamped to itself where it fits, else to the bound on its side.
pub proof fn law_clamping(n: int)
    ensures
        i64::MIN <= n <= i64::MAX ==> time::clamped(n) == n,
        n > i64::MAX ==> time::clamped(n) == i64::MAX,
        n < i64::MIN ==> time::clamped(n) == i64::MIN,
{
}

/// Rounding toward zero loses less than one millisecond and never changes the side of zero.
pub proof fn law_rounding_toward_zero(nanos: int)
    ensures
        nanos >= 0 ==> 0 <= nanos - time::toward_zero_millis(nanos) * 1_000_000 < 1_000_000,
        nanos <= 0 ==> 0 <= time::toward_zero_millis(nanos) * 1_000_000 - nanos < 1_000_000,
{
}

/// The time between two points outside leap seconds is the difference of the two, and adds up over a
/// point in between.
pub proof fn law_time_between_points(a: Timestamp, b: Timestamp, c: Timestamp)
    requires
        a.nanos < 1_000_000_000,
        b.nanos < 1_000_000_000,
        c.nanos < 1_000_000_000,
    ensures
        time::nanos_between(a, b) == (b.secs * 1_000_000_000 + b.nanos) - (a.secs * 1_000_000_000
            + a.nanos),
        time::nanos_between(a, b) + time::nanos_between(b, c) == time::nanos_between(a, c),
{
}

/// The time from one point to another is that of the way back with the opposite sign, leap seconds
/// included.
pub proof fn law_time_between_is_antisymmetric(a: Timestamp, b: Timestamp)
    ensures
        time::nanos_between(a, b) == -time::nanos_between(b, a),
{
}

/// A leap second that the earlier point lies in lasts one second more, where the later point is later
/// on the same day.
pub proof fn law_leap_second_counts(earlier: Timestamp, later: Timestamp)
    requires
        earlier.nanos >= 1_000_000_000,
        later.nanos < 1_000_000_000,
        later.secs > earlier.secs,
        later.secs as int / 86_400 == earlier.secs as int / 86_400,
    ensures
        time::nanos_between(earlier, later) == (later.secs - earlier.secs + 1) * 1_000_000_000
            + later.nanos - earlier.nanos,
{
}

/// A point counts its whole seconds as a thousand milliseconds each.
pub proof fn law_point_in_milliseconds(point: Timestamp)
    ensures
        0 <= point.secs * 1_000_000_000 + point.nanos - point.millis() * 1_000_000 < 1_000_000,
{
}

/// A leap second that one of two points lies in counts as a second more between them exactly where the
/// other falls at a later second of the day.
pub proof fn law_leap_seconds(earlier: Timestamp, later: Timestamp)
    ensures
        ({
            let plain = (later.secs - earlier.secs) * 1_000_000_000 + later.nanos - earlier.nanos;
            let before = earlier.secs as int % 86_400;
            let after = later.secs as int % 86_400;
            &&& before < after && earlier.nanos >= 1_000_000_000 ==> time::nanos_between(
                earlier,
                later,
            ) == plain + 1_000_000_000
            &&& after < before && later.nanos >= 1_000_000_000 ==> time::nanos_between(
                earlier,
                later,
            ) == plain - 1_000_000_000
            &&& before == after || (before < after && earlier.nanos < 1_000_000_000) || (after
                < before && later.nanos < 1_000_000_000) ==> time::nanos_between(earlier, later)
                == plain
        }),
{
}

} // verus!
