use aux::util::{format_duration_long, parse_duration_str, parse_duration_str_checked, DurationError};

#[test]
fn parse_duration_minutes() {
    assert_eq!(parse_duration_str("30m").unwrap(), 30);
}

#[test]
fn parse_duration_hours() {
    assert_eq!(parse_duration_str("1h").unwrap(), 60);
}

#[test]
fn parse_duration_combined() {
    assert_eq!(parse_duration_str("1h30m").unwrap(), 90);
}

#[test]
fn parse_duration_bare() {
    assert_eq!(parse_duration_str("45").unwrap(), 45);
}

#[test]
fn parse_duration_zero() {
    assert!(parse_duration_str("0").is_err());
}

// ── further cases ──────────────────────────────────────────────────────

#[test]
fn parse_duration_is_case_insensitive() {
    assert_eq!(parse_duration_str("2H15M").unwrap(), 135);
}

#[test]
fn parse_duration_errors() {
    assert_eq!(parse_duration_str("h"), Err(DurationError::InvalidHours));
    assert_eq!(parse_duration_str("1hm"), Err(DurationError::InvalidMinutes));
    assert_eq!(parse_duration_str("10s"), Err(DurationError::UnknownUnit));
    assert_eq!(parse_duration_str("99999999999"), Err(DurationError::InvalidNumber));
    assert_eq!(parse_duration_str("0h0m"), Err(DurationError::Zero));
    assert_eq!(parse_duration_str(""), Err(DurationError::Zero));
    assert_eq!(DurationError::UnknownUnit.message(), "Unknown duration unit. Use: 30m, 1h, 1h30m");
}

#[test]
fn parse_duration_overflow_is_reported() {
    assert_eq!(parse_duration_str_checked("4294967295m1m"), None);
    assert_eq!(parse_duration_str_checked("90m"), Some(Ok(90)));
    assert_eq!(parse_duration_str_checked("x"), Some(Err(DurationError::UnknownUnit)));
}

#[test]
fn long_durations() {
    assert_eq!(format_duration_long(0), "0m");
    assert_eq!(format_duration_long(59), "0m");
    assert_eq!(format_duration_long(7200), "2h");
    assert_eq!(format_duration_long(8100), "2h 15m");
    assert_eq!(format_duration_long(600), "10m");
}

#[test]
fn duration_form() {
    assert_eq!(parse_duration_str_checked("1H30M"), Some(Ok(90)));
    assert_eq!(parse_duration_str_checked("2h2h"), Some(Ok(240)));
    assert_eq!(parse_duration_str_checked("0h0m"), Some(Err(DurationError::Zero)));
    assert_eq!(parse_duration_str_checked(""), Some(Err(DurationError::Zero)));
    assert_eq!(parse_duration_str_checked("h"), Some(Err(DurationError::InvalidHours)));
    assert_eq!(parse_duration_str_checked("30s"), Some(Err(DurationError::UnknownUnit)));
    assert_eq!(parse_duration_str_checked("1 h"), Some(Err(DurationError::UnknownUnit)));
}
