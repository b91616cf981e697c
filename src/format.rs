//! Rendering of a `Duration` as an ISO-8601 seconds-based designation,
//! such as `PT8H6M12.345S`.
use vstd::prelude::*;

use crate::constants::{NANOSECONDS_IN_SECOND, SECONDS_IN_HOUR, SECONDS_IN_MINUTE};
use crate::duration::Duration;
use crate::seconds_nanos::{nanos_per_second, trunc_div, trunc_rem};

verus! {

/// The decimal digit character for `d` in `0..10`.
pub open spec fn digit_char(d: int) -> char {
    if d == 0 {
        '0'
    } else if d == 1 {
        '1'
    } else if d == 2 {
        '2'
    } else if d == 3 {
        '3'
    } else if d == 4 {
        '4'
    } else if d == 5 {
        '5'
    } else if d == 6 {
        '6'
    } else if d == 7 {
        '7'
    } else if d == 8 {
        '8'
    } else {
        '9'
    }
}

/// Decimal digits of `n`, without leading zeros (`0` is one digit).
pub open spec fn decimal_digits(n: nat) -> Seq<char>
    decreases n,
{
    if n < 10 {
        seq![digit_char(n as int)]
    } else {
        decimal_digits(n / 10).push(digit_char((n % 10) as int))
    }
}

/// Decimal text of an integer, with a leading `-` when negative.
pub open spec fn integer_text(i: int) -> Seq<char> {
    if i < 0 {
        seq!['-'] + decimal_digits((-i) as nat)
    } else {
        decimal_digits(i as nat)
    }
}

/// The lowest `width` decimal digits of `n`, zero-padded on the left.
pub open spec fn padded_digits(n: nat, width: nat) -> Seq<char>
    decreases width,
{
    if width == 0 {
        seq![]
    } else {
        padded_digits(n / 10, (width - 1) as nat).push(digit_char((n % 10) as int))
    }
}

/// `s` without its trailing `'0'` characters.
pub open spec fn trim_trailing_zeros(s: Seq<char>) -> Seq<char>
    decreases s.len(),
{
    if s.len() > 0 && s.last() == '0' {
        trim_trailing_zeros(s.drop_last())
    } else {
        s
    }
}

/// A decimal point and the nine-digit fraction of `nanos`, trailing zeros
/// removed.
pub open spec fn fraction_text(nanos: nat) -> Seq<char> {
    seq!['.'] + trim_trailing_zeros(padded_digits(nanos, 9))
}

/// The seconds actually written: the stored pair, or for a negative span
/// with a fraction, the pair moved one second toward zero so that the
/// fraction counts in the same direction as the seconds.
pub open spec fn effective_seconds(seconds: int, nanos: int) -> int {
    if seconds >= 0 || nanos == 0 {
        seconds
    } else {
        seconds + 1
    }
}

/// The nanoseconds that go with `effective_seconds`.
pub open spec fn directed_nanos(seconds: int, nanos: int) -> int {
    if seconds >= 0 || nanos == 0 {
        nanos
    } else {
        nanos_per_second() - nanos
    }
}

/// `<hours>H` when there are whole hours.
pub open spec fn hours_field(es: int) -> Seq<char> {
    if trunc_div(es, 3600) != 0 {
        integer_text(trunc_div(es, 3600)).push('H')
    } else {
        seq![]
    }
}

/// `<minutes>M` when there are whole minutes within the hour.
pub open spec fn minutes_field(es: int) -> Seq<char> {
    if trunc_div(trunc_rem(es, 3600), 60) != 0 {
        integer_text(trunc_div(trunc_rem(es, 3600), 60)).push('M')
    } else {
        seq![]
    }
}

/// The seconds field with its fraction and `S`, when either is nonzero.
/// A zero whole part of a negative span is written `-0`, so that the sign
/// still applies to the fraction.
pub open spec fn seconds_field(es: int, dn: int, negative: bool) -> Seq<char> {
    let rem = trunc_rem(es, 60);
    if rem != 0 || dn != 0 {
        let whole = if rem == 0 && negative {
            seq!['-', '0']
        } else {
            integer_text(rem)
        };
        let fraction = if dn != 0 {
            fraction_text(dn as nat)
        } else {
            seq![]
        };
        (whole + fraction).push('S')
    } else {
        seq![]
    }
}

/// The ISO-8601 designation of the duration stored as `(seconds, nanos)`.
pub open spec fn duration_text(seconds: int, nanos: int) -> Seq<char> {
    if seconds == 0 && nanos == 0 {
        seq!['P', 'T', '0', 'S']
    } else {
        let es = effective_seconds(seconds, nanos);
        let dn = directed_nanos(seconds, nanos);
        seq!['P', 'T'] + hours_field(es) + minutes_field(es) + seconds_field(es, dn, seconds < 0)
    }
}

fn digit_str(d: u64) -> (r: &'static str)
    requires
        d < 10,
    ensures
        r@ == seq![digit_char(d as int)],
{
    proof {
        reveal_strlit("0");
        reveal_strlit("1");
        reveal_strlit("2");
        reveal_strlit("3");
        reveal_strlit("4");
        reveal_strlit("5");
        reveal_strlit("6");
        reveal_strlit("7");
        reveal_strlit("8");
        reveal_strlit("9");
    }
    if d == 0 {
        "0"
    } else if d == 1 {
        "1"
    } else if d == 2 {
        "2"
    } else if d == 3 {
        "3"
    } else if d == 4 {
        "4"
    } else if d == 5 {
        "5"
    } else if d == 6 {
        "6"
    } else if d == 7 {
        "7"
    } else if d == 8 {
        "8"
    } else {
        "9"
    }
}

fn push_literal(out: &mut String, text: &str)
    ensures
        final(out)@ == old(out)@ + text@,
{
    out.append(text);
}

fn push_decimal(out: &mut String, n: u64)
    ensures
        final(out)@ == old(out)@ + decimal_digits(n as nat),
    decreases n,
{
    if n >= 10 {
        push_decimal(out, n / 10);
    }
    push_literal(out, digit_str(n % 10));
    proof {
        assert(final(out)@ =~= old(out)@ + decimal_digits(n as nat));
    }
}

fn push_integer(out: &mut String, i: i64)
    ensures
        final(out)@ == old(out)@ + integer_text(i as int),
{
    if i < 0 {
        proof {
            reveal_strlit("-");
        }
        push_literal(out, "-");
        let magnitude = (-(i as i128)) as u64;
        push_decimal(out, magnitude);
        proof {
            assert(final(out)@ =~= old(out)@ + integer_text(i as int));
        }
    } else {
        push_decimal(out, i as u64);
    }
}

fn push_padded(out: &mut String, n: u64, width: u64)
    ensures
        final(out)@ == old(out)@ + padded_digits(n as nat, width as nat),
    decreases width,
{
    if width > 0 {
        push_padded(out, n / 10, width - 1);
        push_literal(out, digit_str(n % 10));
        proof {
            assert(final(out)@ =~= old(out)@ + padded_digits(n as nat, width as nat));
        }
    } else {
        proof {
            assert(final(out)@ =~= old(out)@ + padded_digits(n as nat, width as nat));
        }
    }
}

/// Writes the fraction of `nanos` with its trailing zeros removed.
fn push_fraction(out: &mut String, nanos: u32)
    ensures
        final(out)@ == old(out)@ + fraction_text(nanos as nat),
{
    let mut value: u64 = nanos as u64;
    let mut width: u64 = 9;
    while width > 0 && value % 10 == 0
        invariant
            width <= 9,
            trim_trailing_zeros(padded_digits(value as nat, width as nat)) == trim_trailing_zeros(
                padded_digits(nanos as nat, 9),
            ),
        decreases width,
    {
        proof {
            let s = padded_digits(value as nat, width as nat);
            assert(s.drop_last() == padded_digits((value / 10) as nat, (width - 1) as nat));
        }
        value = value / 10;
        width = width - 1;
    }
    proof {
        reveal_strlit(".");
    }
    push_literal(out, ".");
    push_padded(out, value, width);
    proof {
        assert(final(out)@ =~= old(out)@ + fraction_text(nanos as nat));
    }
}

fn push_hours(out: &mut String, effective_seconds: i64)
    ensures
        final(out)@ == old(out)@ + hours_field(effective_seconds as int),
{
    proof {
        reveal_strlit("H");
    }
    let hours = effective_seconds / SECONDS_IN_HOUR;
    assert(hours == trunc_div(effective_seconds as int, 3600));
    if hours != 0 {
        push_integer(out, hours);
        push_literal(out, "H");
    }
    assert(final(out)@ =~= old(out)@ + hours_field(effective_seconds as int));
}

fn push_minutes(out: &mut String, effective_seconds: i64)
    ensures
        final(out)@ == old(out)@ + minutes_field(effective_seconds as int),
{
    proof {
        reveal_strlit("M");
    }
    let within_hour = effective_seconds % SECONDS_IN_HOUR;
    assert(within_hour == trunc_rem(effective_seconds as int, 3600));
    let minutes = within_hour / SECONDS_IN_MINUTE;
    assert(minutes == trunc_div(within_hour as int, 60));
    if minutes != 0 {
        push_integer(out, minutes);
        push_literal(out, "M");
    }
    assert(final(out)@ =~= old(out)@ + minutes_field(effective_seconds as int));
}

fn push_seconds(out: &mut String, effective_seconds: i64, directed_nanos: u32, negative: bool)
    ensures
        final(out)@ == old(out)@ + seconds_field(
            effective_seconds as int,
            directed_nanos as int,
            negative,
        ),
{
    proof {
        reveal_strlit("S");
        reveal_strlit("-0");
    }
    let remaining_seconds = effective_seconds % SECONDS_IN_MINUTE;
    assert(remaining_seconds == trunc_rem(effective_seconds as int, 60));
    if remaining_seconds != 0 || directed_nanos != 0 {
        let ghost before = out@;
        if remaining_seconds == 0 && negative {
            push_literal(out, "-0");
        } else {
            push_integer(out, remaining_seconds);
        }
        let ghost after_whole = out@;
        if directed_nanos != 0 {
            push_fraction(out, directed_nanos);
        }
        let ghost after_fraction = out@;
        push_literal(out, "S");
        assert(final(out)@ =~= before + seconds_field(
            effective_seconds as int,
            directed_nanos as int,
            negative,
        ));
    } else {
        assert(final(out)@ =~= old(out)@ + seconds_field(
            effective_seconds as int,
            directed_nanos as int,
            negative,
        ));
    }
}

impl Duration {
    /// A string representation of this duration using the ISO-8601
    /// seconds-based representation, such as `PT8H6M12.345S`.
    pub fn to_string(&self) -> (r: String)
        ensures
            r@ == duration_text(self.spec_seconds() as int, self.spec_nano() as int),
    {
        let seconds = self.seconds();
        let nano = self.nano();
        let mut out = String::new();
        if seconds == 0 && nano == 0 {
            proof {
                reveal_strlit("PT0S");
            }
            push_literal(&mut out, "PT0S");
            assert(out@ =~= duration_text(seconds as int, nano as int));
            return out;
        }
        proof {
            reveal_strlit("PT");
        }
        push_literal(&mut out, "PT");
        let (effective_seconds, directed_nanos) = if seconds >= 0 || nano == 0 {
            (seconds, nano)
        } else {
            (seconds + 1, NANOSECONDS_IN_SECOND as u32 - nano)
        };
        let ghost after_pt = out@;
        push_hours(&mut out, effective_seconds);
        let ghost after_hours = out@;
        push_minutes(&mut out, effective_seconds);
        let ghost after_minutes = out@;
        push_seconds(&mut out, effective_seconds, directed_nanos, seconds < 0);
        assert(out@ =~= duration_text(seconds as int, nano as int));
        out
    }
}

} // verus!
