use flipclock::timefmt::{digits_for_duration, digits_for_stopwatch, format_duration_hms, format_stopwatch};
use flipclock::clock::clock_digits;

fn s(v: Vec<char>) -> String {
    v.into_iter().collect()
}

#[test]
fn formats_hours_minutes_seconds() {
    assert_eq!(format_duration_hms(0), "00:00");
    assert_eq!(format_duration_hms(1_500_000), "25:00");
    assert_eq!(format_duration_hms(3_690_999), "01:01:30");
    assert_eq!(format_duration_hms(360_000_000), "100:00:00");
}

#[test]
fn formats_stopwatch_readings() {
    assert_eq!(format_stopwatch(0), "00:00.00");
    assert_eq!(format_stopwatch(83_456), "01:23.45");
    assert_eq!(format_stopwatch(6_000_000 + 1_230), "00:01.23");
}

#[test]
fn card_digits_for_spans() {
    assert_eq!(s(digits_for_duration(1_500_000, false)), "2500");
    assert_eq!(s(digits_for_duration(7_200_000, false)), "9900");
    assert_eq!(s(digits_for_duration(3_690_000, true)), "010130");
    assert_eq!(s(digits_for_stopwatch(83_456)), "012345");
}

#[test]
fn clock_digits_in_both_hour_forms() {
    assert_eq!(s(clock_digits(13, 5, 9, true, true)), "130509");
    assert_eq!(s(clock_digits(13, 5, 9, false, true)), "010509");
    assert_eq!(s(clock_digits(0, 5, 9, false, false)), "1205");
    assert_eq!(s(clock_digits(12, 0, 0, false, false)), "1200");
}
