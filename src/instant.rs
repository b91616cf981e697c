//! An instantaneous point on the TAI timeline, counted from the epoch
//! '1970-01-01 00:00:00Z'.
use vstd::prelude::*;

use crate::constants::{MILLISECONDS_IN_SECOND, NANOSECONDS_IN_MILLISECOND};
use crate::seconds_nanos::{
    carry_of, fits_seconds, lemma_carry_shift, nanos_of, nanos_per_second,
    of_seconds_and_adjustment_checked,
};

verus! {

/// An instantaneous point in time along the timeline.
///
/// This is explicitly a TAI instant: the civil time it maps to changes as
/// leap seconds are added to the civil clock.
#[derive(Clone, Copy, Debug, Default, PartialEq, Eq, Structural, Hash, PartialOrd, Ord)]
pub struct Instant {
    epoch_second: i64,
    nanosecond_of_second: u32,
}

impl Instant {
    #[verifier::type_invariant]
    spec fn canonical(self) -> bool {
        self.nanosecond_of_second < 1_000_000_000
    }

    /// Seconds before or after the epoch.
    pub closed spec fn spec_epoch_second(self) -> i64 {
        self.epoch_second
    }

    /// Nanoseconds farther along the timeline within that second.
    pub closed spec fn spec_nano(self) -> u32 {
        self.nanosecond_of_second
    }

    /// This value is the canonical form of the point `total` nanoseconds
    /// after the epoch.
    pub open spec fn represents(self, total: int) -> bool {
        self.spec_epoch_second() == carry_of(total) && self.spec_nano() == nanos_of(total)
    }

    /// The earliest possible instant.
    pub fn min_value() -> (r: Instant)
        ensures
            r.spec_epoch_second() == i64::MIN,
            r.spec_nano() == 0,
    {
        Instant { epoch_second: i64::MIN, nanosecond_of_second: 0 }
    }

    /// The epoch instant, '1970-01-01 00:00:00.000000000Z'.
    pub fn epoch() -> (r: Instant)
        ensures
            r.spec_epoch_second() == 0,
            r.spec_nano() == 0,
    {
        Instant { epoch_second: 0, nanosecond_of_second: 0 }
    }

    /// The last possible instant.
    pub fn max_value() -> (r: Instant)
        ensures
            r.spec_epoch_second() == i64::MAX,
            r.spec_nano() == 999_999_999,
    {
        Instant { epoch_second: i64::MAX, nanosecond_of_second: 999_999_999 }
    }

    /// Obtains an Instant from milliseconds since the epoch. Every `i64`
    /// count fits.
    pub fn of_epoch_milli(epoch_milliseconds: i64) -> (r: Instant)
        ensures
            r.represents(epoch_milliseconds * 1_000_000),
    {
        let seconds = epoch_milliseconds / MILLISECONDS_IN_SECOND;
        let remainder = epoch_milliseconds % MILLISECONDS_IN_SECOND;
        let nanoseconds = remainder * NANOSECONDS_IN_MILLISECOND;
        proof {
            assert(epoch_milliseconds * 1_000_000 == seconds * nanos_per_second() + nanoseconds)
                by (nonlinear_arith)
                requires
                    epoch_milliseconds == seconds * 1000 + remainder,
                    nanoseconds == remainder * 1_000_000,
            ;
            lemma_carry_shift(seconds as int, nanoseconds as int);
        }
        match Instant::of_epoch_second_and_adjustment_checked(seconds, nanoseconds) {
            Some(instant) => instant,
            None => vstd::pervasive::unreached(),
        }
    }

    /// Obtains an Instant from seconds since the epoch.
    pub fn of_epoch_second(epoch_seconds: i64) -> (r: Instant)
        ensures
            r.spec_epoch_second() == epoch_seconds,
            r.spec_nano() == 0,
    {
        proof {
            lemma_carry_shift(epoch_seconds as int, 0);
        }
        Instant::of_epoch_second_and_adjustment(epoch_seconds, 0)
    }

    /// Obtains an Instant from seconds since the epoch and a nanosecond
    /// adjustment of any size and sign.
    pub fn of_epoch_second_and_adjustment(epoch_seconds: i64, nano_adjustment: i64) -> (r: Instant)
        requires
            fits_seconds(epoch_seconds + carry_of(nano_adjustment as int)),
        ensures
            r.represents(epoch_seconds * nanos_per_second() + nano_adjustment),
    {
        match Instant::of_epoch_second_and_adjustment_checked(epoch_seconds, nano_adjustment) {
            Some(instant) => instant,
            None => vstd::pervasive::unreached(),
        }
    }

    /// As `of_epoch_second_and_adjustment`, or `None` when the carried
    /// seconds overflow.
    pub fn of_epoch_second_and_adjustment_checked(seconds: i64, nano_adjustment: i64) -> (r:
        Option<Instant>)
        ensures
            r is Some <==> fits_seconds(seconds + carry_of(nano_adjustment as int)),
            r matches Some(i) ==> i.represents(seconds * nanos_per_second() + nano_adjustment),
    {
        proof {
            lemma_carry_shift(seconds as int, nano_adjustment as int);
        }
        match of_seconds_and_adjustment_checked(seconds, nano_adjustment) {
            Some((seconds, nanos)) => Some(Instant { epoch_second: seconds, nanosecond_of_second: nanos }),
            None => None,
        }
    }

    /// Gets the number of seconds before or after the epoch.
    pub fn epoch_second(&self) -> (r: i64)
        ensures
            r == self.spec_epoch_second(),
    {
        self.epoch_second
    }

    /// Gets the number of nanoseconds farther along the timeline in this instant.
    pub fn nano(&self) -> (r: u32)
        ensures
            r == self.spec_nano(),
            r < 1_000_000_000,
    {
        proof {
            use_type_invariant(self);
        }
        self.nanosecond_of_second
    }
}

} // verus!
