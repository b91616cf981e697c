use vstd::prelude::*;

verus! {

pub const NANOSECONDS_IN_SECOND: i64 = 1_000_000_000;

pub const NANOSECONDS_IN_MILLISECOND: i64 = 1_000_000;

pub const MILLISECONDS_IN_SECOND: i64 = 1_000;

pub const SECONDS_IN_MINUTE: i64 = 60;

pub const SECONDS_IN_HOUR: i64 = 3_600;

pub const SECONDS_IN_DAY: i64 = 86_400;

} // verus!
