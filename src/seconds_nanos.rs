//! The normalization core shared by `Duration` and `Instant`: reduces a
//! `(seconds, nanosecond adjustment)` pair to canonical form.
use vstd::prelude::*;

use crate::constants::NANOSECONDS_IN_SECOND;

verus! {

/// Number of nanoseconds in one second, as a mathematical integer.
pub open spec fn nanos_per_second() -> int {
    1_000_000_000
}

/// Whether `s` fits the signed 64-bit seconds field.
pub open spec fn fits_seconds(s: int) -> bool {
    i64::MIN <= s <= i64::MAX
}

/// Whole seconds carried out of a nanosecond count: floored division, so a
/// negative count borrows a whole second.
pub open spec fn carry_of(nanos: int) -> int {
    nanos / nanos_per_second()
}

/// Nanosecond-of-second left over after the carry, always in `[0, 10^9)`.
pub open spec fn nanos_of(nanos: int) -> int {
    nanos % nanos_per_second()
}

/// The canonical pair for `seconds` plus `adjustment` nanoseconds, if its
/// seconds component fits.
pub open spec fn normalize(seconds: int, adjustment: int) -> Option<(i64, u32)> {
    if fits_seconds(seconds + carry_of(adjustment)) {
        Some(((seconds + carry_of(adjustment)) as i64, nanos_of(adjustment) as u32))
    } else {
        None
    }
}

/// Splits a nanosecond count into whole seconds (floored) and a
/// non-negative nanosecond-of-second.
pub fn carry_and_nanos(adjustment: i64) -> (r: (i64, u32))
    ensures
        r.0 == carry_of(adjustment as int),
        r.1 == nanos_of(adjustment as int),
        r.1 < 1_000_000_000,
{
    let q = adjustment / NANOSECONDS_IN_SECOND;
    let m = adjustment % NANOSECONDS_IN_SECOND;
    if m < 0 {
        assert(adjustment as int == (q - 1) * nanos_per_second() + (m + nanos_per_second()));
        proof {
            vstd::arithmetic::div_mod::lemma_fundamental_div_mod_converse(
                adjustment as int,
                nanos_per_second(),
                q - 1,
                m + nanos_per_second(),
            );
        }
        (q - 1, (m + NANOSECONDS_IN_SECOND) as u32)
    } else {
        proof {
            vstd::arithmetic::div_mod::lemma_fundamental_div_mod_converse(
                adjustment as int,
                nanos_per_second(),
                q as int,
                m as int,
            );
        }
        (q, m as u32)
    }
}

/// Combines base seconds with a nanosecond adjustment of any size and sign;
/// `None` when the carried seconds leave the 64-bit range.
pub fn of_seconds_and_adjustment_checked(seconds: i64, nano_adjustment: i64) -> (r: Option<(i64, u32)>)
    ensures
        r == normalize(seconds as int, nano_adjustment as int),
{
    let (carry, nanos) = carry_and_nanos(nano_adjustment);
    match seconds.checked_add(carry) {
        Some(s) => Some((s, nanos)),
        None => None,
    }
}

/// Rust's integer division, which rounds toward zero (for a positive divisor).
pub open spec fn trunc_div(a: int, b: int) -> int {
    if a >= 0 {
        a / b
    } else {
        -((-a) / b)
    }
}

/// The remainder that goes with `trunc_div`; it takes the sign of `a`.
pub open spec fn trunc_rem(a: int, b: int) -> int {
    a - b * trunc_div(a, b)
}

/// `seconds * 10^9 + nanos`, with `nanos` in range, splits back into exactly
/// `seconds` and `nanos`.
pub proof fn lemma_split_total(seconds: int, nanos: int)
    requires
        0 <= nanos < nanos_per_second(),
    ensures
        carry_of(seconds * nanos_per_second() + nanos) == seconds,
        nanos_of(seconds * nanos_per_second() + nanos) == nanos,
{
    vstd::arithmetic::div_mod::lemma_fundamental_div_mod_converse(
        seconds * nanos_per_second() + nanos,
        nanos_per_second(),
        seconds,
        nanos,
    );
}

/// Whole seconds added to the base pass straight through the carry.
pub proof fn lemma_carry_shift(seconds: int, adjustment: int)
    ensures
        carry_of(seconds * nanos_per_second() + adjustment) == seconds + carry_of(adjustment),
        nanos_of(seconds * nanos_per_second() + adjustment) == nanos_of(adjustment),
{
    vstd::arithmetic::div_mod::lemma_fundamental_div_mod(adjustment, nanos_per_second());
    assert(seconds * nanos_per_second() + adjustment == (seconds + carry_of(adjustment))
        * nanos_per_second() + nanos_of(adjustment)) by (nonlinear_arith)
        requires
            adjustment == nanos_per_second() * carry_of(adjustment) + nanos_of(adjustment),
    ;
    lemma_split_total(seconds + carry_of(adjustment), nanos_of(adjustment));
}

/// A pair that is already canonical normalizes to itself.
pub proof fn lemma_normalize_canonical(seconds: i64, nanos: u32)
    requires
        nanos < 1_000_000_000,
    ensures
        normalize(seconds as int, nanos as int) == Some((seconds, nanos)),
{
    vstd::arithmetic::div_mod::lemma_fundamental_div_mod_converse(
        nanos as int,
        nanos_per_second(),
        0,
        nanos as int,
    );
}

} // verus!
