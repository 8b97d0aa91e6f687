use gantt_diagram::error::DatabaseError;
use gantt_diagram::timestamp::parse_timestamp;

#[test]
fn parse_epoch_start() {
    let ts = parse_timestamp("1970-01-01 00:00:00,0").unwrap();
    assert_eq!(ts.sec, 0);
    assert_eq!(ts.nsec, 0);
}

#[test]
fn parse_new_year_2020() {
    let ts = parse_timestamp("2020-01-01 00:00:00,000").unwrap();
    assert_eq!(ts.sec, 1_577_836_800);
    assert_eq!(ts.nsec, 0);
}

#[test]
fn parse_time_of_day() {
    let ts = parse_timestamp("2020-01-01 00:00:05,000").unwrap();
    assert_eq!(ts.sec, 1_577_836_805);
}

#[test]
fn parse_fraction_is_scaled_to_nanoseconds() {
    let ts = parse_timestamp("1970-01-01 00:00:00,5").unwrap();
    assert_eq!(ts.nsec, 500_000_000);
    let ts = parse_timestamp("1970-01-01 00:00:00,123").unwrap();
    assert_eq!(ts.nsec, 123_000_000);
}

#[test]
fn parse_fraction_truncates_past_nine_digits() {
    let ts = parse_timestamp("1970-01-01 00:00:00,1234567890123").unwrap();
    assert_eq!(ts.nsec, 123_456_789);
}

#[test]
fn parse_leap_day() {
    let ts = parse_timestamp("2020-02-29 12:30:45,000").unwrap();
    assert_eq!(ts.sec, 1_582_979_445);
}

#[test]
fn parse_pre_epoch() {
    let ts = parse_timestamp("1969-12-31 23:59:59,000").unwrap();
    assert_eq!(ts.sec, -1);
    assert_eq!(ts.nsec, 0);
}

#[test]
fn parse_rejects_nonleap_february_29() {
    assert!(matches!(
        parse_timestamp("2019-02-29 00:00:00,000"),
        Err(DatabaseError::TimeParseError { .. })
    ));
}

#[test]
fn parse_rejects_bad_calendar_fields() {
    assert!(parse_timestamp("0000-01-01 00:00:00,000").is_err());
    assert!(parse_timestamp("2020-00-10 00:00:00,000").is_err());
    assert!(parse_timestamp("2020-13-10 00:00:00,000").is_err());
    assert!(parse_timestamp("2020-04-00 00:00:00,000").is_err());
    assert!(parse_timestamp("2020-04-31 00:00:00,000").is_err());
    assert!(parse_timestamp("2020-01-01 24:00:00,000").is_err());
    assert!(parse_timestamp("2020-01-01 00:60:00,000").is_err());
    assert!(parse_timestamp("2020-01-01 00:00:60,000").is_err());
}

#[test]
fn parse_rejects_bad_layout() {
    assert!(matches!(
        parse_timestamp("not-a-date"),
        Err(DatabaseError::TimeParseError { .. })
    ));
    assert!(parse_timestamp("").is_err());
    assert!(parse_timestamp("2020/01/01 00:00:00,000").is_err());
    assert!(parse_timestamp("2020-01-01T00:00:00,000").is_err());
    assert!(parse_timestamp("2020-01-01 00:00:00.000").is_err());
    assert!(parse_timestamp("2020-01-01 00:00:00,").is_err());
    assert!(parse_timestamp("2020-01-01 00:00:00,00x").is_err());
    assert!(parse_timestamp("2020-01-01 00:00:00,000 ").is_err());
    assert!(parse_timestamp("20-01-01 00:00:00,000").is_err());
}

#[test]
fn parse_accepts_first_four_digit_instant() {
    let ts = parse_timestamp("0001-01-01 00:00:00,0").unwrap();
    assert_eq!(ts.sec, -62_135_596_800);
    assert_eq!(ts.nsec, 0);
}

#[test]
fn parse_accepts_last_four_digit_instant() {
    let ts = parse_timestamp("9999-12-31 23:59:59,999999999").unwrap();
    assert_eq!(ts.sec, 253_402_300_799);
    assert_eq!(ts.nsec, 999_999_999);
}
