//! Time values with a seconds / nanosecond-of-second representation:
//! a signed span (`Duration`) and a point on the TAI timeline (`Instant`).
use vstd::prelude::*;

pub mod constants;
pub mod duration;
pub mod format;
pub mod instant;
pub mod seconds_nanos;

pub use duration::Duration;
pub use instant::Instant;
