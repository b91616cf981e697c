use tai_time::Duration;

#[test]
fn zero_renders_as_pt0s() {
    assert_eq!(Duration::zero().to_string(), "PT0S");
}

#[test]
fn hours_minutes_seconds() {
    assert_eq!(
        Duration::of_seconds(8 * 3600 + 6 * 60 + 12).to_string(),
        "PT8H6M12S"
    );
}

#[test]
fn fraction_is_trimmed() {
    assert_eq!(
        Duration::of_seconds_and_adjustment(8 * 3600 + 6 * 60 + 12, 345_000_000).to_string(),
        "PT8H6M12.345S"
    );
    assert_eq!(Duration::of_nanos(1).to_string(), "PT0.000000001S");
}

#[test]
fn negative_with_fraction() {
    assert_eq!(
        Duration::of_seconds_and_adjustment(-2, 700_000_000).to_string(),
        "PT-1.3S"
    );
    assert_eq!(Duration::of_millis(-1500).to_string(), "PT-1.5S");
}

#[test]
fn negative_below_one_second_keeps_sign() {
    assert_eq!(
        Duration::of_seconds_and_adjustment(-1, 700_000_000).to_string(),
        "PT-0.3S"
    );
}

#[test]
fn negative_whole_fields() {
    assert_eq!(Duration::of_seconds(-3661).to_string(), "PT-1H-1M-1S");
    assert_eq!(Duration::of_minutes(-2).to_string(), "PT-2M");
    assert_eq!(
        Duration::of_seconds_and_adjustment(-3600, -1).to_string(),
        "PT-1H-0.000000001S"
    );
}

#[test]
fn extremes_render() {
    assert_eq!(
        Duration::max_value().to_string(),
        "PT2562047788015215H30M7.999999999S"
    );
    assert_eq!(Duration::min_value().to_string(), "PT-2562047788015215H-30M-8S");
}
