use tai_time::Instant;

#[test]
fn epoch_milli_is_floored() {
    let i = Instant::of_epoch_milli(-1500);
    assert_eq!(i.epoch_second(), -2);
    assert_eq!(i.nano(), 500_000_000);
    let i = Instant::of_epoch_milli(1_234);
    assert_eq!(i.epoch_second(), 1);
    assert_eq!(i.nano(), 234_000_000);
}

#[test]
fn epoch_second_has_no_fraction() {
    let i = Instant::of_epoch_second(-42);
    assert_eq!(i.epoch_second(), -42);
    assert_eq!(i.nano(), 0);
}

#[test]
fn epoch_adjustment_normalizes() {
    let i = Instant::of_epoch_second_and_adjustment(0, -1);
    assert_eq!(i.epoch_second(), -1);
    assert_eq!(i.nano(), 999_999_999);
    assert_eq!(
        Instant::of_epoch_second_and_adjustment(3, 2_000_000_001),
        Instant::of_epoch_second_and_adjustment(5, 1)
    );
}

#[test]
fn epoch_adjustment_overflow_is_reported() {
    assert!(Instant::of_epoch_second_and_adjustment_checked(i64::MAX, 1_000_000_000).is_none());
    assert!(Instant::of_epoch_second_and_adjustment_checked(i64::MIN, -1).is_none());
}

#[test]
fn instant_constants_are_ordered() {
    assert!(Instant::min_value() < Instant::epoch());
    assert!(Instant::epoch() < Instant::max_value());
    assert_eq!(Instant::max_value().nano(), 999_999_999);
}
