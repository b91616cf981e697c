use tai_time::duration::checked_neg;
use tai_time::Duration;

fn samples() -> Vec<Duration> {
    vec![
        Duration::zero(),
        Duration::min_value(),
        Duration::max_value(),
        Duration::of_seconds_and_adjustment(1, 300_000_000),
        Duration::of_seconds_and_adjustment(-2, 700_000_000),
        Duration::of_nanos(-1),
        Duration::of_millis(123_456_789),
        Duration::of_seconds_and_adjustment(i64::MIN, 1),
    ]
}

#[test]
fn canonical_form_is_a_fixed_point() {
    for d in samples() {
        assert!(d.nano() < 1_000_000_000);
        let again = Duration::of_seconds_and_adjustment(d.seconds(), d.nano() as i64);
        assert_eq!(again, d);
    }
}

#[test]
fn negating_twice_gives_back_the_value() {
    for d in samples() {
        if d == Duration::min_value() {
            continue;
        }
        assert_eq!(d.neg().neg(), d);
    }
}

#[test]
fn negation_carries_the_fraction() {
    let d = Duration::of_seconds_and_adjustment(1, 300_000_000);
    let n = d.neg();
    assert_eq!(n, Duration::of_seconds_and_adjustment(-2, 700_000_000));
    assert_eq!(n.seconds(), -2);
    assert_eq!(n.nano(), 700_000_000);
}

#[test]
fn negating_min_overflows() {
    assert_eq!(checked_neg(Duration::min_value()), None);
}

#[test]
fn negating_min_seconds_with_nanos_succeeds() {
    let d = Duration::of_seconds_and_adjustment(i64::MIN, 250_000_000);
    let n = checked_neg(d).unwrap();
    assert_eq!(n.seconds(), i64::MAX);
    assert_eq!(n.nano(), 750_000_000);
}

#[test]
fn millis_carry_is_floored() {
    assert_eq!(
        Duration::of_millis(1500),
        Duration::of_seconds_and_adjustment(1, 500_000_000)
    );
    assert_eq!(
        Duration::of_millis(-1500),
        Duration::of_seconds_and_adjustment(-2, 500_000_000)
    );
}

#[test]
fn millis_extremes_fit() {
    let d = Duration::of_millis(i64::MIN);
    assert_eq!(d.seconds(), -9_223_372_036_854_776);
    assert_eq!(d.nano(), 192_000_000);
    let d = Duration::of_millis(i64::MAX);
    assert_eq!(d.seconds(), 9_223_372_036_854_775);
    assert_eq!(d.nano(), 807_000_000);
}

#[test]
fn minus_one_nanosecond() {
    assert_eq!(
        Duration::of_nanos(-1),
        Duration::of_seconds_and_adjustment(-1, 999_999_999)
    );
}

#[test]
fn nanos_extremes() {
    let d = Duration::of_nanos(i64::MIN);
    assert_eq!(d.seconds(), -9_223_372_037);
    assert_eq!(d.nano(), 145_224_192);
    assert_eq!(d.to_nanos(), i64::MIN);
}

#[test]
fn adjustment_of_many_seconds() {
    let d = Duration::of_seconds_and_adjustment(10, -3_500_000_000);
    assert_eq!(d.seconds(), 6);
    assert_eq!(d.nano(), 500_000_000);
}

#[test]
fn adjustment_overflow_is_reported() {
    assert!(Duration::of_seconds_and_adjustment_checked(i64::MAX, 1_000_000_000).is_none());
    assert!(Duration::of_seconds_and_adjustment_checked(i64::MIN, -1).is_none());
    assert!(Duration::of_seconds_and_adjustment_checked(i64::MAX, 999_999_999).is_some());
}

#[test]
fn unit_constructors() {
    assert_eq!(Duration::of_days(2).seconds(), 172_800);
    assert_eq!(Duration::of_hours(-3).seconds(), -10_800);
    assert_eq!(Duration::of_minutes(5).seconds(), 300);
    assert_eq!(Duration::of_minutes(5).nano(), 0);
    assert_eq!(Duration::of_seconds(-7).seconds(), -7);
}

#[test]
fn unit_constructor_overflow_is_reported() {
    assert!(Duration::of_days_checked(i64::MAX / 86_400 + 1).is_none());
    assert!(Duration::of_days_checked(i64::MAX / 86_400).is_some());
    assert!(Duration::of_hours_checked(i64::MIN).is_none());
    assert!(Duration::of_minutes_checked(i64::MAX).is_none());
}

#[test]
fn whole_units_round_trip() {
    for n in [0i64, 1, -1, 365, -400, 106_751_991_167_300] {
        assert_eq!(Duration::of_days(n).to_days(), n);
        assert_eq!(Duration::of_hours(n).to_hours(), n);
        assert_eq!(Duration::of_minutes(n).to_minutes(), n);
    }
}

#[test]
fn unit_conversions_truncate_toward_zero() {
    let d = Duration::of_seconds(-90);
    assert_eq!(d.to_minutes(), -1);
    assert_eq!(Duration::of_seconds(90_000).to_days(), 1);
    assert_eq!(Duration::of_seconds(-7_199).to_hours(), -1);
}

#[test]
fn to_millis_and_to_nanos() {
    let d = Duration::of_seconds_and_adjustment(-2, 700_000_000);
    assert_eq!(d.to_millis(), -1_300);
    assert_eq!(d.to_nanos(), -1_300_000_000);
    assert_eq!(Duration::of_millis(1_234).to_millis(), 1_234);
}

#[test]
fn abs_of_negative_and_positive() {
    let d = Duration::of_seconds_and_adjustment(-2, 700_000_000);
    assert_eq!(d.abs(), Duration::of_seconds_and_adjustment(1, 300_000_000));
    let p = Duration::of_seconds_and_adjustment(3, 1);
    assert_eq!(p.abs(), p);
    assert_eq!(Duration::zero().abs(), Duration::zero());
}

#[test]
fn ordering_is_by_length() {
    assert!(Duration::min_value() < Duration::zero());
    assert!(Duration::zero() < Duration::max_value());
    let a = Duration::of_seconds_and_adjustment(-2, 700_000_000);
    let b = Duration::of_seconds_and_adjustment(-1, 0);
    assert!(a < b);
    assert!(Duration::of_nanos(5) > Duration::of_nanos(4));
    assert_eq!(a.partial_cmp(&a), Some(std::cmp::Ordering::Equal));
    assert_eq!(a.cmp(&b), std::cmp::Ordering::Less);
}
