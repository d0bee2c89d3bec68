use playback::clock::{
    duration_seconds, elapsed_seconds, format_duration, progress_percent,
    DURATION_UNITS_PER_SECOND,
};
use playback::rational::Rational;

#[test]
fn zero_duration_has_no_defined_progress() {
    assert_eq!(progress_percent(5, 0), None);
    assert_eq!(progress_percent(0, 0), None);
    assert_eq!(progress_percent(5, -3), None);
}

#[test]
fn progress_is_the_elapsed_share_in_percent() {
    assert_eq!(progress_percent(0, 10), Some(0));
    assert_eq!(progress_percent(5, 10), Some(50));
    assert_eq!(progress_percent(10, 10), Some(100));
    assert_eq!(progress_percent(1, 3), Some(33));
}

#[test]
fn progress_clamps_at_the_ends() {
    assert_eq!(progress_percent(-4, 10), Some(0));
    assert_eq!(progress_percent(20, 10), Some(100));
}

#[test]
fn elapsed_seconds_under_a_time_base() {
    // A 1/90000 time base: 90000 units make one second.
    assert_eq!(elapsed_seconds(90000, Rational::new(1, 90000)), 1);
    assert_eq!(elapsed_seconds(450000, Rational::new(1, 90000)), 5);
    assert_eq!(elapsed_seconds(89999, Rational::new(1, 90000)), 0);
    assert_eq!(elapsed_seconds(10, Rational::new(2, 1)), 20);
    assert_eq!(elapsed_seconds(-7, Rational::new(1, 1000)), 0);
}

#[test]
fn duration_units_are_microseconds() {
    assert_eq!(DURATION_UNITS_PER_SECOND, 1_000_000);
    assert_eq!(duration_seconds(5_000_000), 5);
    assert_eq!(duration_seconds(999_999), 0);
    assert_eq!(duration_seconds(0), 0);
    assert_eq!(duration_seconds(-42), 0);
}

#[test]
fn duration_display_is_hh_mm_ss() {
    assert_eq!(format_duration(0), "00:00:00");
    assert_eq!(format_duration(59), "00:00:59");
    assert_eq!(format_duration(3723), "01:02:03");
    assert_eq!(format_duration(86399), "23:59:59");
}

#[test]
fn duration_display_grows_past_two_digit_hours() {
    assert_eq!(format_duration(360000), "100:00:00");
}
