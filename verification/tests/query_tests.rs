use influxdb::query::EpochTime;
use influxdb::{Timestamp, ValidQuery};

#[test]
fn test_equality_str() {
    assert_eq!(ValidQuery::from("hello"), "hello");
}

#[test]
fn test_equality_string() {
    assert_eq!(
        ValidQuery::from(String::from("hello")),
        String::from("hello")
    );
}

#[test]
fn test_format_for_timestamp_now() {
    assert!(Timestamp::Now.render() == "");
}

#[test]
fn test_format_for_timestamp_else() {
    assert!(Timestamp::Nanoseconds(100).render() == "100");
}

#[test]
fn mod_test_equality_str() {
    assert_eq!(ValidQuery::from("hello"), "hello");
}

#[test]
fn mod_test_equality_string() {
    assert_eq!(
        ValidQuery::from(String::from("hello")),
        String::from("hello")
    );
}

#[test]
fn mod_test_format_for_timestamp_now() {
    assert!(Timestamp::Now.render() == "");
}

#[test]
fn mod_test_format_for_timestamp_else() {
    assert!(Timestamp::Nanoseconds(100).render() == "100");
}

#[test]
fn test_valid_query_get() {
    assert_eq!(ValidQuery::from("weather temperature=82").get(), "weather temperature=82");
}

#[test]
fn test_timestamp_render_large_value() {
    assert!(Timestamp::Seconds(18_446_744_073_709_551_615usize).render() == "18446744073709551615");
}

#[test]
fn test_timestamp_render_zero() {
    assert!(Timestamp::Milliseconds(0).render() == "0");
}

#[test]
fn test_epoch_time_scales_coarse_units_to_millis() {
    assert_eq!(Timestamp::Hours(2).epoch_time(), Some(EpochTime::Millis(7_200_000)));
    assert_eq!(Timestamp::Minutes(2).epoch_time(), Some(EpochTime::Millis(120_000)));
    assert_eq!(Timestamp::Seconds(2).epoch_time(), Some(EpochTime::Millis(2_000)));
    assert_eq!(Timestamp::Milliseconds(2).epoch_time(), Some(EpochTime::Millis(2)));
}

#[test]
fn test_epoch_time_fine_units() {
    assert_eq!(Timestamp::Nanoseconds(1).epoch_time(), Some(EpochTime::Nanos(1)));
    assert_eq!(Timestamp::Microseconds(1).epoch_time(), Some(EpochTime::Nanos(0)));
    assert_eq!(Timestamp::Now.epoch_time(), Some(EpochTime::Current));
}

#[test]
fn test_epoch_time_overflow_is_reported() {
    assert_eq!(Timestamp::Hours(usize::MAX).epoch_time(), None);
}
