//! A signed span of time held as whole seconds plus a nanosecond-of-second.
use core::cmp::Ordering;

use vstd::prelude::*;
use vstd::std_specs::cmp::PartialOrdSpec;

use crate::constants::{
    MILLISECONDS_IN_SECOND, NANOSECONDS_IN_MILLISECOND, NANOSECONDS_IN_SECOND, SECONDS_IN_DAY,
    SECONDS_IN_HOUR, SECONDS_IN_MINUTE,
};
use crate::seconds_nanos::{
    carry_and_nanos, carry_of, fits_seconds, lemma_carry_shift, lemma_normalize_canonical,
    lemma_split_total, nanos_of, nanos_per_second, normalize, of_seconds_and_adjustment_checked,
    trunc_div,
};

verus! {

/// A time-based amount of time, such as '34.5 seconds'.
///
/// The seconds carry the sign; the nanosecond-of-second is always a
/// non-negative forward offset from that second.
#[derive(Clone, Copy, Debug, Default, PartialEq, Eq, Structural, Hash, Ord)]
pub struct Duration {
    seconds: i64,
    nanoseconds_of_second: u32,
}

impl Duration {
    /// The duration with the greatest negative length.
    pub fn min_value() -> (r: Duration)
        ensures
            r.spec_seconds() == i64::MIN,
            r.spec_nano() == 0,
    {
        Duration { seconds: i64::MIN, nanoseconds_of_second: 0 }
    }

    /// The duration of zero length.
    pub fn zero() -> (r: Duration)
        ensures
            r.spec_seconds() == 0,
            r.spec_nano() == 0,
    {
        Duration { seconds: 0, nanoseconds_of_second: 0 }
    }

    /// The duration with the greatest positive length.
    pub fn max_value() -> (r: Duration)
        ensures
            r.spec_seconds() == i64::MAX,
            r.spec_nano() == 999_999_999,
    {
        Duration { seconds: i64::MAX, nanoseconds_of_second: 999_999_999 }
    }

    #[verifier::type_invariant]
    spec fn canonical(self) -> bool {
        self.nanoseconds_of_second < 1_000_000_000
    }

    /// The seconds component.
    pub closed spec fn spec_seconds(self) -> i64 {
        self.seconds
    }

    /// The nanosecond-of-second component.
    pub closed spec fn spec_nano(self) -> u32 {
        self.nanoseconds_of_second
    }

    /// Every `Duration` value satisfies this.
    pub open spec fn is_canonical(self) -> bool {
        self.spec_nano() < 1_000_000_000
    }

    /// The length of this duration in nanoseconds.
    pub open spec fn total_nanos(self) -> int {
        self.spec_seconds() * nanos_per_second() + self.spec_nano()
    }

    /// This value is the canonical form of a span of `total` nanoseconds.
    pub open spec fn represents(self, total: int) -> bool {
        self.spec_seconds() == carry_of(total) && self.spec_nano() == nanos_of(total)
    }

    /// The one value whose negation overflows.
    pub open spec fn is_min(self) -> bool {
        self.spec_seconds() == i64::MIN && self.spec_nano() == 0
    }

    /// Obtains a `Duration` representing a number of standard days of
    /// 86,400 seconds; the nanosecond field is zero.
    pub fn of_days(days: i64) -> (r: Duration)
        requires
            fits_seconds(days * 86_400),
        ensures
            r.spec_seconds() == days * 86_400,
            r.spec_nano() == 0,
    {
        match Duration::of_days_checked(days) {
            Some(d) => d,
            None => vstd::pervasive::unreached(),
        }
    }

    /// As `of_days`, or `None` when the seconds overflow.
    pub fn of_days_checked(days: i64) -> (r: Option<Duration>)
        ensures
            r is Some <==> fits_seconds(days * 86_400),
            r matches Some(d) ==> d.spec_seconds() == days * 86_400 && d.spec_nano() == 0,
    {
        match days.checked_mul(SECONDS_IN_DAY) {
            Some(total_seconds) => Some(Duration::of_seconds(total_seconds)),
            None => None,
        }
    }

    /// Obtains a `Duration` representing a number of standard hours of
    /// 3,600 seconds; the nanosecond field is zero.
    pub fn of_hours(hours: i64) -> (r: Duration)
        requires
            fits_seconds(hours * 3_600),
        ensures
            r.spec_seconds() == hours * 3_600,
            r.spec_nano() == 0,
    {
        match Duration::of_hours_checked(hours) {
            Some(d) => d,
            None => vstd::pervasive::unreached(),
        }
    }

    /// As `of_hours`, or `None` when the seconds overflow.
    pub fn of_hours_checked(hours: i64) -> (r: Option<Duration>)
        ensures
            r is Some <==> fits_seconds(hours * 3_600),
            r matches Some(d) ==> d.spec_seconds() == hours * 3_600 && d.spec_nano() == 0,
    {
        match hours.checked_mul(SECONDS_IN_HOUR) {
            Some(total_seconds) => Some(Duration::of_seconds(total_seconds)),
            None => None,
        }
    }

    /// Obtains a `Duration` representing a number of standard minutes of
    /// 60 seconds; the nanosecond field is zero.
    pub fn of_minutes(minutes: i64) -> (r: Duration)
        requires
            fits_seconds(minutes * 60),
        ensures
            r.spec_seconds() == minutes * 60,
            r.spec_nano() == 0,
    {
        match Duration::of_minutes_checked(minutes) {
            Some(d) => d,
            None => vstd::pervasive::unreached(),
        }
    }

    /// As `of_minutes`, or `None` when the seconds overflow.
    pub fn of_minutes_checked(minutes: i64) -> (r: Option<Duration>)
        ensures
            r is Some <==> fits_seconds(minutes * 60),
            r matches Some(d) ==> d.spec_seconds() == minutes * 60 && d.spec_nano() == 0,
    {
        match minutes.checked_mul(SECONDS_IN_MINUTE) {
            Some(total_seconds) => Some(Duration::of_seconds(total_seconds)),
            None => None,
        }
    }

    /// Obtains a `Duration` of `seconds` plus `nano_adjustment` nanoseconds;
    /// the adjustment may have any size and sign.
    pub fn of_seconds_and_adjustment(seconds: i64, nano_adjustment: i64) -> (r: Duration)
        requires
            fits_seconds(seconds + carry_of(nano_adjustment as int)),
        ensures
            r.represents(seconds * nanos_per_second() + nano_adjustment),
    {
        match Duration::of_seconds_and_adjustment_checked(seconds, nano_adjustment) {
            Some(d) => d,
            None => vstd::pervasive::unreached(),
        }
    }

    /// As `of_seconds_and_adjustment`, or `None` when the carried seconds
    /// overflow.
    pub fn of_seconds_and_adjustment_checked(seconds: i64, nano_adjustment: i64) -> (r: Option<
        Duration,
    >)
        ensures
            r is Some <==> fits_seconds(seconds + carry_of(nano_adjustment as int)),
            r matches Some(d) ==> d.represents(seconds * nanos_per_second() + nano_adjustment),
    {
        proof {
            lemma_carry_shift(seconds as int, nano_adjustment as int);
        }
        match of_seconds_and_adjustment_checked(seconds, nano_adjustment) {
            Some((seconds, nanos)) => Some(Duration { seconds: seconds, nanoseconds_of_second: nanos }),
            None => None,
        }
    }

    /// Obtains a `Duration` of a number of seconds; the nanosecond field is zero.
    pub fn of_seconds(seconds: i64) -> (r: Duration)
        ensures
            r.spec_seconds() == seconds,
            r.spec_nano() == 0,
    {
        Duration { seconds: seconds, nanoseconds_of_second: 0 }
    }

    /// Obtains a `Duration` of a number of milliseconds. Every `i64` count fits.
    pub fn of_millis(millis: i64) -> (r: Duration)
        ensures
            r.represents(millis * 1_000_000),
    {
        let seconds = millis / MILLISECONDS_IN_SECOND;
        let remainder = millis % MILLISECONDS_IN_SECOND;
        let adjustment = remainder * NANOSECONDS_IN_MILLISECOND;
        let (second_adjustment, nanos) = carry_and_nanos(adjustment);
        proof {
            assert(millis * 1_000_000 == seconds * nanos_per_second() + adjustment)
                by (nonlinear_arith)
                requires
                    millis == seconds * 1000 + remainder,
                    adjustment == remainder * 1_000_000,
            ;
            lemma_carry_shift(seconds as int, adjustment as int);
        }
        Duration { seconds: seconds + second_adjustment, nanoseconds_of_second: nanos }
    }

    /// Obtains a `Duration` of a number of nanoseconds. Every `i64` count fits.
    pub fn of_nanos(nanoseconds: i64) -> (r: Duration)
        ensures
            r.represents(nanoseconds as int),
    {
        let (seconds, nanos) = carry_and_nanos(nanoseconds);
        Duration { seconds: seconds, nanoseconds_of_second: nanos }
    }

    /// Gets the number of nanoseconds within the second in this duration.
    pub fn nano(&self) -> (r: u32)
        ensures
            r == self.spec_nano(),
            r < 1_000_000_000,
    {
        proof {
            use_type_invariant(self);
        }
        self.nanoseconds_of_second
    }

    /// Gets the number of seconds in this duration.
    pub fn seconds(&self) -> (r: i64)
        ensures
            r == self.spec_seconds(),
    {
        self.seconds
    }

    /// Returns a duration of the same magnitude and non-negative length.
    /// Only `MIN` has no such counterpart.
    pub fn abs(self) -> (r: Duration)
        requires
            !self.is_min(),
        ensures
            self.spec_seconds() >= 0 ==> r == self,
            r.represents(if self.total_nanos() >= 0 {
                self.total_nanos()
            } else {
                -self.total_nanos()
            }),
    {
        proof {
            use_type_invariant(&self);
            lemma_split_total(self.seconds as int, self.nanoseconds_of_second as int);
        }
        if self.seconds >= 0 {
            self
        } else {
            self.neg()
        }
    }

    /// Returns this duration with the length negated; fails only for `MIN`.
    pub fn neg(self) -> (r: Duration)
        requires
            !self.is_min(),
        ensures
            r.represents(-self.total_nanos()),
    {
        match checked_neg(self) {
            Some(d) => d,
            None => vstd::pervasive::unreached(),
        }
    }

    /// The total number of whole days, dividing the seconds by 86,400 and
    /// rounding toward zero.
    pub fn to_days(&self) -> (r: i64)
        ensures
            r == trunc_div(self.spec_seconds() as int, 86_400),
    {
        self.seconds() / SECONDS_IN_DAY
    }

    /// The total number of whole hours, dividing the seconds by 3,600 and
    /// rounding toward zero.
    pub fn to_hours(&self) -> (r: i64)
        ensures
            r == trunc_div(self.spec_seconds() as int, 3_600),
    {
        self.seconds() / SECONDS_IN_HOUR
    }

    /// The total number of whole minutes, dividing the seconds by 60 and
    /// rounding toward zero.
    pub fn to_minutes(&self) -> (r: i64)
        ensures
            r == trunc_div(self.spec_seconds() as int, 60),
    {
        self.seconds() / SECONDS_IN_MINUTE
    }

    /// The total number of milliseconds: the seconds times 1,000 plus the
    /// whole milliseconds of the nanosecond field.
    pub fn to_millis(&self) -> (r: i64)
        requires
            fits_seconds(self.spec_seconds() * 1_000),
            fits_seconds(self.spec_seconds() * 1_000 + self.spec_nano() / 1_000_000),
        ensures
            r == self.spec_seconds() * 1_000 + self.spec_nano() / 1_000_000,
    {
        self.seconds() * MILLISECONDS_IN_SECOND + self.nano() as i64 / NANOSECONDS_IN_MILLISECOND
    }

    /// The total number of nanoseconds: the seconds times 10^9 plus the
    /// nanosecond field.
    pub fn to_nanos(&self) -> (r: i64)
        requires
            fits_seconds(self.spec_seconds() * nanos_per_second()),
            fits_seconds(self.total_nanos()),
        ensures
            r == self.total_nanos(),
    {
        self.seconds() * NANOSECONDS_IN_SECOND + self.nano() as i64
    }
}

/// Lexicographic comparison of the `(seconds, nanosecond-of-second)` pairs.
pub open spec fn lexicographic_cmp(a: Duration, b: Duration) -> Ordering {
    if a.spec_seconds() < b.spec_seconds() {
        Ordering::Less
    } else if a.spec_seconds() > b.spec_seconds() {
        Ordering::Greater
    } else if a.spec_nano() < b.spec_nano() {
        Ordering::Less
    } else if a.spec_nano() > b.spec_nano() {
        Ordering::Greater
    } else {
        Ordering::Equal
    }
}

impl PartialOrd for Duration {
    fn partial_cmp(&self, other: &Duration) -> (r: Option<Ordering>) {
        if self.seconds < other.seconds {
            Some(Ordering::Less)
        } else if self.seconds > other.seconds {
            Some(Ordering::Greater)
        } else if self.nanoseconds_of_second < other.nanoseconds_of_second {
            Some(Ordering::Less)
        } else if self.nanoseconds_of_second > other.nanoseconds_of_second {
            Some(Ordering::Greater)
        } else {
            Some(Ordering::Equal)
        }
    }
}

impl vstd::std_specs::cmp::PartialOrdSpecImpl for Duration {
    open spec fn obeys_partial_cmp_spec() -> bool {
        true
    }

    open spec fn partial_cmp_spec(&self, other: &Duration) -> Option<Ordering> {
        Some(lexicographic_cmp(*self, *other))
    }
}

/// Negates a duration, or `None` for `Duration::MIN`, whose negation does
/// not fit.
pub fn checked_neg(duration: Duration) -> (r: Option<Duration>)
    ensures
        r is None <==> duration.is_min(),
        r matches Some(d) ==> d.represents(-duration.total_nanos()),
        duration.spec_seconds() == i64::MIN && duration.spec_nano() != 0 ==> (r matches Some(d)
            && d.spec_seconds() == i64::MAX && d.spec_nano() == 1_000_000_000
            - duration.spec_nano()),
{
    let seconds = duration.seconds();
    let nanos = duration.nano();
    if seconds == i64::MIN {
        if nanos == 0 {
            None
        } else {
            proof {
                lemma_split_total(i64::MAX as int, nanos_per_second() - nanos);
            }
            Some(
                Duration {
                    seconds: i64::MAX,
                    nanoseconds_of_second: NANOSECONDS_IN_SECOND as u32 - nanos,
                },
            )
        }
    } else {
        let (adjustment, flipped_nanos) = carry_and_nanos(-(nanos as i64));
        proof {
            assert(-duration.total_nanos() == (-seconds) * nanos_per_second() - nanos)
                by (nonlinear_arith)
                requires
                    duration.total_nanos() == seconds * nanos_per_second() + nanos,
            ;
            lemma_carry_shift(-seconds, -nanos);
        }
        Some(Duration { seconds: -seconds + adjustment, nanoseconds_of_second: flipped_nanos })
    }
}

/// Every duration is already in canonical form: normalizing its own
/// `(seconds, nano)` pair gives that pair back, and the value is the
/// canonical form of its own length.
pub proof fn lemma_normalize_idempotent(d: Duration)
    requires
        d.is_canonical(),
    ensures
        normalize(d.spec_seconds() as int, d.spec_nano() as int) == Some(
            (d.spec_seconds(), d.spec_nano()),
        ),
        d.represents(d.total_nanos()),
{
    lemma_normalize_canonical(d.spec_seconds(), d.spec_nano());
    lemma_split_total(d.spec_seconds() as int, d.spec_nano() as int);
}

/// Negating twice gives back the same value, and the negation's pair
/// recombines to exactly the negated length.
pub proof fn lemma_neg_involutive(d: Duration, negated: Duration, twice: Duration)
    requires
        d.is_canonical(),
        !d.is_min(),
        negated.represents(-d.total_nanos()),
        twice.represents(-negated.total_nanos()),
    ensures
        negated.total_nanos() == -d.total_nanos(),
        twice == d,
{
    vstd::arithmetic::div_mod::lemma_fundamental_div_mod(-d.total_nanos(), nanos_per_second());
    vstd::arithmetic::div_mod::lemma_fundamental_div_mod(
        -negated.total_nanos(),
        nanos_per_second(),
    );
    lemma_split_total(d.spec_seconds() as int, d.spec_nano() as int);
}

proof fn lemma_whole_units_round_trip(count: int, unit: int)
    requires
        unit > 0,
    ensures
        trunc_div(count * unit, unit) == count,
{
    if count >= 0 {
        vstd::arithmetic::div_mod::lemma_div_by_multiple(count, unit);
    } else {
        vstd::arithmetic::div_mod::lemma_div_by_multiple(-count, unit);
        assert(-(count * unit) == (-count) * unit) by (nonlinear_arith);
    }
}

/// A duration made of whole days converts back to the same number of days.
pub proof fn lemma_days_round_trip(days: i64, d: Duration)
    requires
        d.spec_seconds() == days * 86_400,
    ensures
        trunc_div(d.spec_seconds() as int, 86_400) == days,
{
    lemma_whole_units_round_trip(days as int, 86_400);
}

/// A duration made of whole hours converts back to the same number of hours.
pub proof fn lemma_hours_round_trip(hours: i64, d: Duration)
    requires
        d.spec_seconds() == hours * 3_600,
    ensures
        trunc_div(d.spec_seconds() as int, 3_600) == hours,
{
    lemma_whole_units_round_trip(hours as int, 3_600);
}

/// A duration made of whole minutes converts back to the same number of
/// minutes.
pub proof fn lemma_minutes_round_trip(minutes: i64, d: Duration)
    requires
        d.spec_seconds() == minutes * 60,
    ensures
        trunc_div(d.spec_seconds() as int, 60) == minutes,
{
    lemma_whole_units_round_trip(minutes as int, 60);
}

/// The order of durations is the order of their lengths: comparing the
/// `(seconds, nano)` pairs lexicographically never leaves two values
/// unordered, calls only identical values equal, and agrees with comparing
/// total nanoseconds.
pub proof fn lemma_order_by_length(a: Duration, b: Duration)
    requires
        a.is_canonical(),
        b.is_canonical(),
    ensures
        a.partial_cmp_spec(&b) is Some,
        a.partial_cmp_spec(&b) == Some(Ordering::Less) <==> a.total_nanos() < b.total_nanos(),
        a.partial_cmp_spec(&b) == Some(Ordering::Equal) <==> a == b,
        a.partial_cmp_spec(&b) == Some(Ordering::Greater) <==> a.total_nanos() > b.total_nanos(),
        b.partial_cmp_spec(&a) == Some(Ordering::Less) <==> a.partial_cmp_spec(&b) == Some(
            Ordering::Greater,
        ),
{
    lemma_normalize_idempotent(a);
    lemma_normalize_idempotent(b);
    if a.spec_seconds() < b.spec_seconds() {
        assert(a.total_nanos() < b.total_nanos()) by (nonlinear_arith)
            requires
                a.spec_seconds() + 1 <= b.spec_seconds(),
                0 <= a.spec_nano() < nanos_per_second(),
                0 <= b.spec_nano(),
                a.total_nanos() == a.spec_seconds() * nanos_per_second() + a.spec_nano(),
                b.total_nanos() == b.spec_seconds() * nanos_per_second() + b.spec_nano(),
        ;
    } else if a.spec_seconds() > b.spec_seconds() {
        assert(a.total_nanos() > b.total_nanos()) by (nonlinear_arith)
            requires
                b.spec_seconds() + 1 <= a.spec_seconds(),
                0 <= b.spec_nano() < nanos_per_second(),
                0 <= a.spec_nano(),
                a.total_nanos() == a.spec_seconds() * nanos_per_second() + a.spec_nano(),
                b.total_nanos() == b.spec_seconds() * nanos_per_second() + b.spec_nano(),
        ;
    }
}

/// `MIN < ZERO < MAX`.
pub proof fn lemma_min_zero_max(min: Duration, zero: Duration, max: Duration)
    requires
        min.spec_seconds() == i64::MIN && min.spec_nano() == 0,
        zero.spec_seconds() == 0 && zero.spec_nano() == 0,
        max.spec_seconds() == i64::MAX && max.spec_nano() == 999_999_999,
    ensures
        min.partial_cmp_spec(&zero) == Some(Ordering::Less),
        zero.partial_cmp_spec(&max) == Some(Ordering::Less),
{
}

} // verus!
