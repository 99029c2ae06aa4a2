use twitch_types::clock::{timestamp_from_reading, CLOCK_FORMAT_MESSAGE};
use std::cmp::Ordering;
use twitch_types::timestamp::NON_UTC_MESSAGE;
use twitch_types::{Timestamp, TimestampParseError};

#[test]
pub fn time_test() {
    let mut time1 = Timestamp::new("2021-11-11T10:00:00Z").unwrap();
    time1.set_time(10, 0, 32);
    let time2 = Timestamp::new("2021-11-10T10:00:00Z").unwrap();
    assert!(time2.is_before(&time1));
    println!("{:?}", time1.normalize().unwrap());
}

#[test]
fn set_time_writes_partial_time() {
    let mut time = Timestamp::new("2021-11-11T10:00:00Z").unwrap();
    time.set_time(10, 0, 32);
    assert_eq!(time.as_str(), "2021-11-11T10:00:32Z");
    time.set_time(23, 59, 7);
    assert_eq!(time.as_str(), "2021-11-11T23:59:07Z");
}

#[test]
fn to_day_sets_midnight() {
    let time = Timestamp::new("2021-07-01T13:37:00Z").unwrap();
    assert_eq!(time.to_day().as_str(), "2021-07-01T00:00:00Z");
}

#[test]
fn to_day_drops_fraction() {
    let time = Timestamp::new("2021-07-01T13:37:00.5Z").unwrap();
    let day = time.to_day();
    assert_eq!(day.as_str(), "2021-07-01T00:00:00Z");
    assert_eq!(day.to_day(), day);
    let time = Timestamp::new("2021-07-01T13:37:00.123456Z").unwrap();
    assert_eq!(time.to_day().as_str(), "2021-07-01T00:00:00Z");
}

#[test]
fn set_time_replaces_whole_partial_time() {
    let mut time = Timestamp::new("2021-07-01T13:37:00.5Z").unwrap();
    time.set_time(1, 2, 3);
    assert_eq!(time.as_str(), "2021-07-01T01:02:03Z");
    let mut odd = Timestamp::new("2021-11-11T000000::Z").unwrap();
    odd.set_time(23, 59, 59);
    assert_eq!(odd.as_str(), "2021-11-11T23:59:59Z");
    assert!(Timestamp::validate(odd.as_str()).is_ok());
}

#[test]
fn normalize_keeps_utc() {
    let time = Timestamp::new("2021-07-01T13:37:00Z").unwrap();
    assert_eq!(time.normalize().unwrap(), &time);
}

#[test]
fn is_before_orders_by_text() {
    let time2021 = Timestamp::new("2021-07-01T13:37:00Z").unwrap();
    let time2020 = Timestamp::new("2020-07-01T13:37:00Z").unwrap();
    assert!(time2020.is_before(&time2021));
    assert!(!time2021.is_before(&time2020));
    assert!(!time2021.is_before(&time2021));
}

#[test]
fn partial_cmp_needs_same_shape() {
    let plain = Timestamp::new("2021-07-01T13:37:00Z").unwrap();
    let fraction = Timestamp::new("2021-07-01T13:37:00.5Z").unwrap();
    let longer = Timestamp::new("2021-07-01T13:37:00.55Z").unwrap();
    assert_eq!(plain.partial_cmp(&fraction), None);
    assert_eq!(fraction.partial_cmp(&longer), None);
    assert_eq!(plain.partial_cmp(&plain), Some(Ordering::Equal));
    assert_eq!(longer.partial_cmp(&Timestamp::new("2021-07-01T13:37:00.50Z").unwrap()), Some(Ordering::Greater));
}

#[test]
fn new_accepts_rfc3339_utc() {
    assert!(Timestamp::new("2021-11-11T10:00:00Z").is_ok());
    assert!(Timestamp::new("2021-11-11T10:00:00.123456Z").is_ok());
    assert_eq!(Timestamp::new("2021-11-11T10:00:00Z").unwrap().into_string(), "2021-11-11T10:00:00Z");
}

fn invalid_part(r: Result<Timestamp, TimestampParseError>) -> Option<Option<String>> {
    match r {
        Err(TimestampParseError::InvalidFormat { s }) => Some(s),
        _ => None,
    }
}

#[test]
fn new_rejects_bad_characters() {
    assert_eq!(invalid_part(Timestamp::new("2021-11-11 10:00:00Z")), Some(None));
    assert_eq!(invalid_part(Timestamp::new("2021-11-11x10:00:00Z")), Some(None));
}

#[test]
fn new_rejects_missing_or_leading_t() {
    assert_eq!(invalid_part(Timestamp::new("2021-11-11")), Some(None));
    assert_eq!(invalid_part(Timestamp::new("T10:00:00Z")), Some(None));
    assert_eq!(invalid_part(Timestamp::new("")), Some(None));
}

#[test]
fn new_rejects_bad_date() {
    assert_eq!(invalid_part(Timestamp::new("2021-11-1T10:00:00Z")), Some(Some("2021-11-1".to_string())));
    assert_eq!(invalid_part(Timestamp::new("2021:11:11T10:00:00Z")), Some(Some("2021:11:11".to_string())));
}

#[test]
fn new_rejects_offsets() {
    match Timestamp::new("2021-11-11T13:37:00-01:00") {
        Err(TimestampParseError::Other(m)) => assert_eq!(m, NON_UTC_MESSAGE),
        other => panic!("unexpected {:?}", other),
    }
}

#[test]
fn new_rejects_bad_time() {
    assert_eq!(invalid_part(Timestamp::new("2021-11-11T10:00Z")), Some(Some("T10:00".to_string())));
    assert_eq!(invalid_part(Timestamp::new("2021-11-11T10:00:000Z")), Some(Some("T10:00:000".to_string())));
    assert_eq!(invalid_part(Timestamp::new("2021-11-11T10:0:00.5Z")), Some(Some("T10:0:00.5".to_string())));
}

#[test]
fn validate_matches_new() {
    assert!(Timestamp::validate("2021-11-11T10:00:00Z").is_ok());
    assert!(Timestamp::validate("2021-11-11T10:00:00").is_err());
}

#[test]
fn now_and_today_are_valid_timestamps() {
    let now = Timestamp::now().unwrap();
    assert!(Timestamp::validate(now.as_str()).is_ok());
    let today = Timestamp::today().unwrap();
    assert!(Timestamp::validate(today.as_str()).is_ok());
    assert!(today.as_str().ends_with("T00:00:00Z"));
    assert_eq!(today.as_str().len(), 20);
}

#[test]
fn clock_reading_conversion() {
    let t = timestamp_from_reading(Some("2021-11-11T10:00:00Z".to_string())).unwrap();
    assert_eq!(t.as_str(), "2021-11-11T10:00:00Z");
    assert!(matches!(timestamp_from_reading(Some("yesterday".to_string())), Err(TimestampParseError::InvalidFormat { s: None })));
    match timestamp_from_reading(None) {
        Err(TimestampParseError::Other(m)) => assert_eq!(m, CLOCK_FORMAT_MESSAGE),
        other => panic!("unexpected {:?}", other),
    }
}

#[test]
fn non_ascii_numerals_count_by_their_bytes() {
    // Arabic-Indic digits are numeric, so the character check passes, but
    // each takes two bytes, so the date is too long.
    assert_eq!(
        invalid_part(Timestamp::new("٢٠٢١-11-11T10:00:00Z")),
        Some(Some("٢٠٢١-11-11".to_string()))
    );
    // A letter outside ASCII is not numeric.
    assert_eq!(invalid_part(Timestamp::new("2021-11-11T10:00:00Zé")), Some(None));
}

#[test]
fn parsing_with_time() {
    let t = Timestamp::new("2021-07-01T13:37:00Z").unwrap();
    let fixed = t.to_fixed_offset().unwrap();
    assert_eq!(fixed.hour(), 13);
    assert_eq!(fixed.minute(), 37);
    let utc = t.to_utc().unwrap();
    assert_eq!(utc, fixed);
    // The validator lets a month of 13 through; `time` does not.
    let odd = Timestamp::new("2021-13-45T99:99:99Z").unwrap();
    assert!(odd.to_fixed_offset().is_none());
    assert!(odd.to_utc().is_none());
}
