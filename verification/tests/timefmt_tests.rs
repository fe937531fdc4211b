use textamp::timefmt::{fmt_ms, format_duration, format_time, format_track_duration};

#[test]
fn fmt_ms_minutes_and_seconds() {
    assert_eq!(fmt_ms(65_000), "1:05");
    assert_eq!(fmt_ms(0), "0:00");
    assert_eq!(fmt_ms(999), "0:00");
    assert_eq!(fmt_ms(59_999), "0:59");
}

#[test]
fn fmt_ms_with_hours() {
    assert_eq!(fmt_ms(3_723_000), "1:02:03");
    assert_eq!(fmt_ms(3_600_000), "1:00:00");
    assert_eq!(fmt_ms(36_000_000), "10:00:00");
}

#[test]
fn format_time_pads_both_fields() {
    assert_eq!(format_time(65_000), "01:05");
    assert_eq!(format_time(272_000), "04:32");
    assert_eq!(format_time(6_000_000), "100:00");
}

#[test]
fn format_track_duration_unpadded_minutes() {
    assert_eq!(format_track_duration(272_000), "4:32");
    assert_eq!(format_track_duration(5_000), "0:05");
    assert_eq!(format_track_duration(600_000), "10:00");
}

#[test]
fn format_duration_units() {
    assert_eq!(format_duration(0), "0s");
    assert_eq!(format_duration(42), "42s");
    assert_eq!(format_duration(60), "1m");
    assert_eq!(format_duration(3599), "59m");
    assert_eq!(format_duration(3600), "1h");
    assert_eq!(format_duration(86_399), "23h");
    assert_eq!(format_duration(172_800), "2d");
}
