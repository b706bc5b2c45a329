//! Durations, instants on the UTC clock, and saturating arithmetic on milliseconds.
use vstd::prelude::*;

verus! {

/// Nanoseconds in one second.
pub const NANOS_PER_SEC: u32 = 1_000_000_000;

/// Nanoseconds in one millisecond.
pub const NANOS_PER_MILLI: u32 = 1_000_000;

/// The longest duration: `u64::MAX` seconds and 999,999,999 nanoseconds.
pub const MAX_NANOS: u128 = 18_446_744_073_709_551_615_999_999_999;

/// A span of time with nanosecond resolution.
#[derive(Clone, Copy, Debug, PartialEq, Eq, Structural)]
pub struct Duration {
    nanos: u128,
}

impl View for Duration {
    type V = nat;

    /// The length in nanoseconds.
    closed spec fn view(&self) -> nat {
        self.nanos as nat
    }
}

impl Duration {
    #[verifier::type_invariant]
    spec fn bounded(self) -> bool {
        self.nanos <= MAX_NANOS
    }

    /// The length in whole milliseconds.
    pub open spec fn millis(&self) -> nat {
        self@ / 1_000_000
    }

    /// A duration of whole seconds and a fraction of a second in nanoseconds.
    pub fn new(secs: u64, subsec_nanos: u32) -> (r: Self)
        requires
            subsec_nanos < NANOS_PER_SEC,
        ensures
            r@ == secs * 1_000_000_000 + subsec_nanos,
    {
        Duration { nanos: secs as u128 * 1_000_000_000 + subsec_nanos as u128 }
    }

    /// A duration of whole seconds.
    pub fn from_secs(secs: u64) -> (r: Self)
        ensures
            r@ == secs * 1_000_000_000,
    {
        Duration { nanos: secs as u128 * 1_000_000_000 }
    }

    /// A duration of whole milliseconds.
    pub fn from_millis(millis: u64) -> (r: Self)
        ensures
            r@ == millis * 1_000_000,
            r.millis() == millis,
    {
        Duration { nanos: millis as u128 * 1_000_000 }
    }

    /// Whether the duration is empty.
    pub fn is_zero(&self) -> (r: bool)
        ensures
            r == (self@ == 0),
    {
        self.nanos == 0
    }

    /// Whether this duration is shorter than `other`.
    pub fn shorter_than(&self, other: &Self) -> (r: bool)
        ensures
            r == (self@ < other@),
    {
        self.nanos < other.nanos
    }

    /// The whole milliseconds of the duration.
    pub fn as_millis(&self) -> (r: u128)
        ensures
            r == self.millis(),
    {
        self.nanos / NANOS_PER_MILLI as u128
    }

    /// The whole seconds of the duration.
    pub fn as_secs(&self) -> (r: u64)
        ensures
            r == self@ / 1_000_000_000,
    {
        proof {
            use_type_invariant(self);
        }
        (self.nanos / 1_000_000_000) as u64
    }

    /// The nanoseconds that the duration has besides its whole seconds.
    pub fn subsec_nanos(&self) -> (r: u32)
        ensures
            r == self@ % 1_000_000_000,
    {
        (self.nanos % 1_000_000_000) as u32
    }

    /// `factor` times the duration, or the longest duration if that is shorter.
    pub fn saturating_mul(&self, factor: u32) -> (r: Self)
        ensures
            r@ == if self@ * factor <= MAX_NANOS {
                self@ * factor
            } else {
                MAX_NANOS as int
            },
    {
        proof {
            use_type_invariant(self);
            assert(self.nanos * factor <= MAX_NANOS * u32::MAX) by (nonlinear_arith)
                requires
                    self.nanos <= MAX_NANOS,
                    factor <= u32::MAX,
            ;
        }
        let product: u128 = self.nanos * factor as u128;
        if product <= MAX_NANOS {
            Duration { nanos: product }
        } else {
            Duration { nanos: MAX_NANOS }
        }
    }

    /// The whole milliseconds of the duration, `i64::MAX` where there are more.
    pub fn millis_i64(&self) -> (r: i64)
        ensures
            r == clamped(self.millis() as int),
    {
        let millis: u128 = self.as_millis();
        if millis <= i64::MAX as u128 {
            millis as i64
        } else {
            i64::MAX
        }
    }
}

/// The `i64` nearest to `n`.
pub open spec fn clamped(n: int) -> i64 {
    if n > i64::MAX {
        i64::MAX
    } else if n < i64::MIN {
        i64::MIN
    } else {
        n as i64
    }
}

/// The sum of two numbers, held at the bounds of `i64`.
pub fn saturating_sum(a: i64, b: i64) -> (r: i64)
    ensures
        r == clamped(a + b),
{
    let sum: i128 = a as i128 + b as i128;
    clamp(sum)
}

/// The difference of two numbers, held at the bounds of `i64`.
pub fn saturating_difference(a: i64, b: i64) -> (r: i64)
    ensures
        r == clamped(a - b),
{
    let difference: i128 = a as i128 - b as i128;
    clamp(difference)
}

/// The product of two numbers, held at the bounds of `i64`.
pub fn saturating_product(a: i64, b: i64) -> (r: i64)
    ensures
        r == clamped(a * b),
{
    proof {
        assert(i64::MIN * i64::MAX - i64::MAX <= a * b <= i64::MIN * i64::MIN) by (nonlinear_arith)
            requires
                i64::MIN <= a <= i64::MAX,
                i64::MIN <= b <= i64::MAX,
        ;
    }
    let product: i128 = a as i128 * b as i128;
    clamp(product)
}

/// The `i64` nearest to `n`.
fn clamp(n: i128) -> (r: i64)
    ensures
        r == clamped(n as int),
{
    if n > i64::MAX as i128 {
        i64::MAX
    } else if n < i64::MIN as i128 {
        i64::MIN
    } else {
        n as i64
    }
}

/// A point on the UTC clock: seconds since 1970-01-01T00:00:00Z and nanoseconds within the second.
///
/// A point inside a leap second has the second before it and from 1,000,000,000 to 1,999,999,999
/// nanoseconds.
#[derive(Clone, Copy, Debug, PartialEq, Eq, Structural)]
pub struct Timestamp {
    pub secs: i64,
    pub nanos: u32,
}

impl Timestamp {
    /// Whole milliseconds since 1970-01-01T00:00:00Z.
    pub open spec fn millis(&self) -> int {
        self.secs * 1000 + self.nanos / 1_000_000
    }

    /// A point that the clock can show: from the year -262143 to the year 262142, and not inside a
    /// leap second.
    pub open spec fn is_clock_reading(&self) -> bool {
        -8_334_601_228_800 <= self.secs <= 8_210_266_876_799 && self.nanos < NANOS_PER_SEC
    }
}

/// The nanoseconds from `earlier` to `later`. A leap second that one of them lies in counts as one
/// second more between them where the other falls at a later time of day.
pub open spec fn nanos_between(earlier: Timestamp, later: Timestamp) -> int {
    let earlier_time = earlier.secs as int % 86_400;
    let later_time = later.secs as int % 86_400;
    let leap: int = if later_time > earlier_time && earlier.nanos >= NANOS_PER_SEC {
        1_000_000_000
    } else if later_time < earlier_time && later.nanos >= NANOS_PER_SEC {
        -1_000_000_000
    } else {
        0
    };
    (later.secs - earlier.secs) * 1_000_000_000 + later.nanos - earlier.nanos + leap
}

/// `nanos` in whole milliseconds, rounded toward zero.
pub open spec fn toward_zero_millis(nanos: int) -> int {
    if nanos >= 0 {
        nanos / 1_000_000
    } else {
        -((-nanos) / 1_000_000)
    }
}

/// The whole milliseconds from `earlier` to `later`, rounded toward zero.
pub fn millis_between(earlier: &Timestamp, later: &Timestamp) -> (r: i128)
    ensures
        r == toward_zero_millis(nanos_between(*earlier, *later)),
{
    let mut nanos: i128 = (later.secs as i128 - earlier.secs as i128) * 1_000_000_000
        + later.nanos as i128 - earlier.nanos as i128;
    let earlier_time: i64 = time_of_day(earlier.secs);
    let later_time: i64 = time_of_day(later.secs);
    if later_time > earlier_time && earlier.nanos >= NANOS_PER_SEC {
        nanos = nanos + NANOS_PER_SEC as i128;
    } else if later_time < earlier_time && later.nanos >= NANOS_PER_SEC {
        nanos = nanos - NANOS_PER_SEC as i128;
    }
    if nanos >= 0 {
        nanos / NANOS_PER_MILLI as i128
    } else {
        -((-nanos) / NANOS_PER_MILLI as i128)
    }
}

/// The second of the day that a second since 1970-01-01T00:00:00Z falls on.
fn time_of_day(secs: i64) -> (r: i64)
    ensures
        r == secs as int % 86_400,
{
    let rest: i64 = secs % 86_400;
    if rest < 0 {
        rest + 86_400
    } else {
        rest
    }
}

/// The UTC clock: `chrono::Utc::now`, with the seconds and nanoseconds of the point that it returns.
/// The point is one that `chrono` can hold and lies in no leap second. Two readings may show any
/// times. `chrono` panics where the system clock shows a time before 1970 or one that it cannot
/// hold.
#[verifier::external_body]
pub(crate) fn utc_now() -> (r: Timestamp)
    ensures
        r.is_clock_reading(),
{
    let now = chrono::Utc::now();
    Timestamp { secs: now.timestamp(), nanos: now.timestamp_subsec_nanos() }
}

/// The UTC clock now.
pub fn now() -> (r: Timestamp)
    ensures
        r.is_clock_reading(),
{
    utc_now()
}

/// A clock reading in whole milliseconds.
pub open spec fn is_clock_millis(ms: i64) -> bool {
    -8_334_601_228_800_000 <= ms <= 8_210_266_876_799_999
}

/// A clock reading in whole milliseconds since 1970-01-01T00:00:00Z.
pub fn reading_ms(reading: &Timestamp) -> (r: i64)
    requires
        reading.is_clock_reading(),
    ensures
        r == reading.millis(),
        is_clock_millis(r),
{
    reading.secs * 1000 + (reading.nanos / NANOS_PER_MILLI) as i64
}

/// The UTC clock now, in whole milliseconds since 1970-01-01T00:00:00Z.
pub fn now_ms() -> (r: i64)
    ensures
        is_clock_millis(r),
{
    reading_ms(&utc_now())
}

} // verus!
