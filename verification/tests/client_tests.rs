use influxdb::client::{
    connection_failure, interpret_ping, interpret_response, InfluxDbClient, Method,
};
use influxdb::{Error, Query, QueryTypes, ReadQuery, Timestamp};

#[test]
fn test_fn_database() {
    let client = InfluxDbClient::new("http://localhost:8068", "database");
    assert_eq!("database", client.database_name());
}

#[test]
fn test_with_auth() {
    let client = InfluxDbClient::new("http://localhost:8068", "database");
    assert_eq!(client.url, "http://localhost:8068");
    assert_eq!(client.database, "database");
    assert!(client.auth.is_none());
    let with_auth = client.with_auth("username", "password");
    assert!(with_auth.auth.is_some());
    let auth = with_auth.auth.unwrap();
    assert_eq!(&auth.username, "username");
    assert_eq!(&auth.password, "password");
}

#[test]
fn test_into_impl() {
    let client = InfluxDbClient::new("http://localhost:8068", "database");
    assert!(client.auth.is_none());
    let basic_parameters: Vec<(String, String)> = client.parameters();
    assert_eq!(
        vec![("db".to_string(), "database".to_string())],
        basic_parameters
    );

    let with_auth = InfluxDbClient::new("http://localhost:8068", "database")
        .with_auth("username", "password");
    let basic_parameters_with_auth: Vec<(String, String)> = with_auth.parameters();
    assert_eq!(
        vec![
            ("db".to_string(), "database".to_string()),
            ("u".to_string(), "username".to_string()),
            ("p".to_string(), "password".to_string())
        ],
        basic_parameters_with_auth
    );

    let client = InfluxDbClient::new("http://localhost:8068", "database");
    assert!(client.auth.is_none());
    let basic_parameters: Vec<(String, String)> = client.parameters();
    assert_eq!(
        vec![("db".to_string(), "database".to_string())],
        basic_parameters
    );

    let with_auth = InfluxDbClient::new("http://localhost:8068", "database")
        .with_auth("username", "password");
    let basic_parameters_with_auth: Vec<(String, String)> = with_auth.parameters();
    assert_eq!(
        vec![
            ("db".to_string(), "database".to_string()),
            ("u".to_string(), "username".to_string()),
            ("p".to_string(), "password".to_string())
        ],
        basic_parameters_with_auth
    );
}

#[test]
fn test_select_read_query_uses_get() {
    let client = InfluxDbClient::new("http://localhost:8086", "test");
    let query = ReadQuery::new("SELECT * FROM weather");
    let plan = client.prepare(QueryTypes::from(&query)).unwrap();
    assert_eq!(plan.method, Method::Get);
    assert!(plan.body.is_none());
    assert_eq!(plan.endpoint, "http://localhost:8086/query");
    assert_eq!(
        plan.parameters,
        vec![
            ("db".to_string(), "test".to_string()),
            ("q".to_string(), "SELECT * FROM weather".to_string())
        ]
    );
    assert!(plan.url.as_str().starts_with("http://localhost:8086/query?db=test"));
}

#[test]
fn test_show_read_query_uses_get() {
    let client = InfluxDbClient::new("http://localhost:8086", "test");
    let query = ReadQuery::new("SHOW DATABASES");
    let plan = client.prepare(QueryTypes::from(&query)).unwrap();
    assert_eq!(plan.method, Method::Get);
}

#[test]
fn test_other_read_query_uses_post() {
    let client = InfluxDbClient::new("http://localhost:8086", "test");
    let query = ReadQuery::new("DELETE FROM weather");
    let plan = client.prepare(QueryTypes::from(&query)).unwrap();
    assert_eq!(plan.method, Method::Post);
    assert!(plan.body.is_none());
}

#[test]
fn test_lowercase_select_uses_post() {
    let client = InfluxDbClient::new("http://localhost:8086", "test");
    let query = ReadQuery::new("select * from weather");
    let plan = client.prepare(QueryTypes::from(&query)).unwrap();
    assert_eq!(plan.method, Method::Post);
}

#[test]
fn test_write_query_uses_post_with_body() {
    let client = InfluxDbClient::new("http://localhost:8086", "test");
    let query = <dyn Query>::write_query(Timestamp::Hours(11), "weather").add_field("temperature", 82);
    let plan = client.prepare(QueryTypes::from(&query)).unwrap();
    assert_eq!(plan.method, Method::Post);
    assert_eq!(plan.body.as_deref(), Some("weather temperature=82 11"));
    assert_eq!(plan.endpoint, "http://localhost:8086/write");
    assert_eq!(
        plan.parameters,
        vec![
            ("db".to_string(), "test".to_string()),
            ("precision".to_string(), "h".to_string())
        ]
    );
    assert!(plan.url.as_str().starts_with("http://localhost:8086/write?db=test"));
    assert!(plan.url.as_str().contains("precision=h"));
}

#[test]
fn test_empty_write_query_fails_before_planning() {
    let client = InfluxDbClient::new("http://localhost:8086", "test");
    let query = <dyn Query>::write_query(Timestamp::Hours(11), "weather");
    let result = client.prepare(QueryTypes::from(&query));
    assert!(matches!(result, Err(Error::InvalidQueryError { .. })));
}

#[test]
fn test_bad_base_url_is_reported() {
    let client = InfluxDbClient::new("not a url", "test");
    let query = ReadQuery::new("SELECT * FROM weather");
    let result = client.prepare(QueryTypes::from(&query));
    assert!(matches!(result, Err(Error::UrlConstructionError { .. })));
}

#[test]
fn test_bad_base_url_on_write_is_construction_error() {
    let client = InfluxDbClient::new("not a url", "test");
    let query = <dyn Query>::write_query(Timestamp::Hours(11), "weather").add_field("temperature", 82);
    let result = client.prepare(QueryTypes::from(&query));
    assert!(matches!(result, Err(Error::UrlConstructionError { .. })));
}

#[test]
fn test_connection_failure_maps_to_connection_error() {
    let err = connection_failure("connection refused".to_string());
    match err {
        Error::ConnectionError { error } => assert_eq!(error, "connection refused"),
        other => panic!("expected a connection error, got {:?}", other),
    }
}

#[test]
fn test_response_body_with_error_marker() {
    let body = "{\"error\":\"database not found\"}";
    let result = interpret_response(200, Some(body.to_string()));
    match result {
        Err(Error::DatabaseError { error }) => {
            assert_eq!(error, format!("influxdb error: \"{}\"", body));
        }
        other => panic!("expected a database error, got {:?}", other),
    }
}

#[test]
fn test_response_body_with_error_marker_on_server_error_status() {
    let result = interpret_response(500, Some("{\"error\":\"boom\"}".to_string()));
    assert!(matches!(result, Err(Error::DatabaseError { .. })));
}

#[test]
fn test_plain_response_body_is_returned() {
    let result = interpret_response(200, Some("{\"results\":[]}".to_string()));
    assert_eq!(result.unwrap(), "{\"results\":[]}");
}

#[test]
fn test_status_401_is_authorization_error() {
    let result = interpret_response(401, Some("{\"error\":\"x\"}".to_string()));
    assert!(matches!(result, Err(Error::AuthorizationError)));
}

#[test]
fn test_status_403_is_authentication_error() {
    let result = interpret_response(403, None);
    assert!(matches!(result, Err(Error::AuthenticationError)));
}

#[test]
fn test_undecodable_body_is_deserialization_error() {
    let result = interpret_response(200, None);
    assert!(matches!(result, Err(Error::DeserializationError { .. })));
}

#[test]
fn test_ping_with_both_headers() {
    let result = interpret_ping(Some("OSS".to_string()), Some("1.7.4".to_string()));
    assert_eq!(result.unwrap(), ("OSS".to_string(), "1.7.4".to_string()));
}

#[test]
fn test_ping_with_missing_header() {
    let result = interpret_ping(Some("OSS".to_string()), None);
    assert!(matches!(result, Err(Error::ProtocolError { .. })));
}
