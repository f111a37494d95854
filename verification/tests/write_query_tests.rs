use influxdb::{InfluxDbWriteable, Query, QueryType, Timestamp, Type};

#[test]
fn test_write_builder_empty_query() {
    let query = <dyn Query>::write_query(Timestamp::Hours(5), "marina_3").build();

    assert!(query.is_err(), "Query was not empty");
}

#[test]
fn test_write_builder_single_field() {
    let query = <dyn Query>::write_query(Timestamp::Hours(11), "weather")
        .add_field("temperature", 82)
        .build();

    assert!(query.is_ok(), "Query was empty");
    assert_eq!(query.unwrap(), "weather temperature=82 11");
}

#[test]
fn test_write_builder_multiple_fields() {
    let query = <dyn Query>::write_query(Timestamp::Hours(11), "weather")
        .add_field("temperature", 82)
        .add_field("wind_strength", Type::Float(3.7.to_string()))
        .build();

    assert!(query.is_ok(), "Query was empty");
    assert_eq!(
        query.unwrap(),
        "weather temperature=82,wind_strength=3.7 11"
    );
}

#[test]
fn test_write_builder_optional_fields() {
    let query = <dyn Query>::write_query(Timestamp::Hours(11), "weather")
        .add_field("temperature", Some(82u64))
        .add_field("wind_strength", <Option<u64>>::None)
        .build();

    assert!(query.is_ok(), "Query was empty");
    assert_eq!(query.unwrap(), "weather temperature=82 11");
}

#[test]
fn test_write_builder_only_tags() {
    let query = <dyn Query>::write_query(Timestamp::Hours(11), "weather")
        .add_tag("season", "summer")
        .build();

    assert!(query.is_err(), "Query missing one or more fields");
}

#[test]
fn test_write_builder_full_query() {
    let query = <dyn Query>::write_query(Timestamp::Hours(11), "weather")
        .add_field("temperature", 82)
        .add_tag("location", "us-midwest")
        .add_tag("season", "summer")
        .build();

    assert!(query.is_ok(), "Query was empty");
    assert_eq!(
        query.unwrap(),
        "weather,location=\"us-midwest\",season=\"summer\" temperature=82 11"
    );
}

#[test]
fn test_correct_query_type() {
    let query = <dyn Query>::write_query(Timestamp::Hours(11), "weather")
        .add_field("temperature", 82)
        .add_tag("location", "us-midwest")
        .add_tag("season", "summer");

    assert_eq!(query.get_type(), QueryType::WriteQuery);
}

#[test]
fn test_write_builder_now_has_no_tail() {
    let query = <dyn Query>::write_query(Timestamp::Now, "weather")
        .add_field("temperature", 82)
        .build();

    assert_eq!(query.unwrap(), "weather temperature=82");
}

#[test]
fn test_write_builder_value_kinds() {
    let query = <dyn Query>::write_query(Timestamp::Seconds(9), "sensors")
        .add_field("on", true)
        .add_field("off", false)
        .add_field("delta", -5i64)
        .add_field("lowest", i64::MIN)
        .add_field("count", 18_446_744_073_709_551_615u64)
        .add_field("label", "north")
        .build();

    assert_eq!(
        query.unwrap(),
        "sensors on=true,off=false,delta=-5,lowest=-9223372036854775808,count=18446744073709551615,label=\"north\" 9"
    );
}

#[test]
fn test_write_builder_duplicate_keys_kept_in_order() {
    let query = <dyn Query>::write_query(Timestamp::Hours(11), "weather")
        .add_field("temperature", 82)
        .add_field("temperature", 83)
        .build();

    assert_eq!(query.unwrap(), "weather temperature=82,temperature=83 11");
}

#[test]
fn test_precision_tokens() {
    assert_eq!(<dyn Query>::write_query(Timestamp::Now, "m").get_precision(), "");
    assert_eq!(<dyn Query>::write_query(Timestamp::Nanoseconds(1), "m").get_precision(), "ns");
    assert_eq!(<dyn Query>::write_query(Timestamp::Microseconds(1), "m").get_precision(), "u");
    assert_eq!(<dyn Query>::write_query(Timestamp::Milliseconds(1), "m").get_precision(), "ms");
    assert_eq!(<dyn Query>::write_query(Timestamp::Seconds(1), "m").get_precision(), "s");
    assert_eq!(<dyn Query>::write_query(Timestamp::Minutes(1), "m").get_precision(), "m");
    assert_eq!(<dyn Query>::write_query(Timestamp::Hours(1), "m").get_precision(), "h");
}

#[test]
fn test_read_query_builds_verbatim() {
    let query = <dyn Query>::raw_read_query("SELECT * FROM weather").build();

    assert_eq!(query.unwrap(), "SELECT * FROM weather");
}

#[test]
fn test_read_query_type() {
    let query = <dyn Query>::raw_read_query("SELECT * FROM weather");

    assert_eq!(query.get_type(), QueryType::ReadQuery);
}

#[test]
fn test_into_query_starts_empty_builder() {
    let query = Timestamp::Hours(11)
        .into_query("weather".to_string())
        .add_field("temperature", 82)
        .build();

    assert_eq!(query.unwrap(), "weather temperature=82 11");
}
