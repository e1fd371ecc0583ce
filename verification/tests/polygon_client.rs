use polygon_io_client_rust::polygon_client::{
    PolygonClientBuilder, POLYGON_API_URL_VAR, POLYGON_IO_API_URL,
};
use polygon_io_client_rust::tickers::TickersRequest;
use std::time::Duration;

#[test]
fn the_api_has_a_default_base_url() {
    assert_eq!(POLYGON_IO_API_URL, "https://api.polygon.io");
    assert_eq!(POLYGON_API_URL_VAR, "POLYGON_API_URL");
}

#[test]
fn build_with_an_explicit_key() {
    let client = PolygonClientBuilder::new().auth_key("test-key").build(None).unwrap();
    assert_eq!(client.rest_client().api_url(), "https://api.polygon.io");
    assert_eq!(client.rest_client().auth_key(), "test-key");
    assert_eq!(client.rest_client().timeout(), None);
}

#[test]
fn build_without_a_key_fails() {
    let error = PolygonClientBuilder::new().build(None).unwrap_err();
    assert_eq!(error, "Auth key is not set");
    let error = PolygonClientBuilder::default().build(Some("http://localhost".to_string())).unwrap_err();
    assert_eq!(error, "Auth key is not set");
}

#[test]
fn build_with_a_key_from_the_environment() {
    let client = PolygonClientBuilder::new()
        .auth_key_env("POLYGON_AUTH_KEY", Some("from-env".to_string()))
        .build(None)
        .unwrap();
    assert_eq!(client.rest_client().auth_key(), "from-env");
}

#[test]
fn build_reports_the_variable_that_is_not_set() {
    let error = PolygonClientBuilder::new()
        .auth_key_env("POLYGON_AUTH_KEY", None)
        .build(None)
        .unwrap_err();
    assert_eq!(
        error,
        "Auth Key not found. Environment variable 'POLYGON_AUTH_KEY' is not set"
    );
}

#[test]
fn an_explicit_key_goes_before_the_environment() {
    let client = PolygonClientBuilder::new()
        .auth_key("explicit")
        .auth_key_env("POLYGON_AUTH_KEY", Some("from-env".to_string()))
        .build(None)
        .unwrap();
    assert_eq!(client.rest_client().auth_key(), "explicit");
    let client = PolygonClientBuilder::new()
        .auth_key_env("POLYGON_AUTH_KEY", Some("from-env".to_string()))
        .auth_key("explicit")
        .build(None)
        .unwrap();
    assert_eq!(client.rest_client().auth_key(), "explicit");
}

#[test]
fn an_explicit_key_makes_up_for_a_variable_that_is_not_set() {
    let client = PolygonClientBuilder::new()
        .auth_key("explicit")
        .auth_key_env("POLYGON_AUTH_KEY", None)
        .build(None)
        .unwrap();
    assert_eq!(client.rest_client().auth_key(), "explicit");
}

#[test]
fn a_variable_that_is_set_makes_up_for_one_that_is_not() {
    let client = PolygonClientBuilder::new()
        .auth_key_env("FIRST", None)
        .auth_key_env("SECOND", Some("second".to_string()))
        .build(None)
        .unwrap();
    assert_eq!(client.rest_client().auth_key(), "second");
}

#[test]
fn the_last_explicit_key_wins() {
    let client = PolygonClientBuilder::new().auth_key("one").auth_key("two").build(None).unwrap();
    assert_eq!(client.rest_client().auth_key(), "two");
}

#[test]
fn the_base_url_comes_from_the_environment_if_it_is_there() {
    let client = PolygonClientBuilder::new()
        .auth_key("test-key")
        .build(Some("http://localhost:8080".to_string()))
        .unwrap();
    assert_eq!(client.rest_client().api_url(), "http://localhost:8080");
}

#[test]
fn an_explicit_base_url_goes_before_the_environment() {
    let client = PolygonClientBuilder::new()
        .auth_key("test-key")
        .api_url("http://explicit")
        .build(Some("http://from-env".to_string()))
        .unwrap();
    assert_eq!(client.rest_client().api_url(), "http://explicit");
    let client = PolygonClientBuilder::new()
        .auth_key("test-key")
        .api_url("http://explicit")
        .build(None)
        .unwrap();
    assert_eq!(client.rest_client().api_url(), "http://explicit");
}

#[test]
fn the_timeout_reaches_the_client() {
    let client = PolygonClientBuilder::new()
        .auth_key("test-key")
        .timeout(Duration::from_millis(1500))
        .build(None)
        .unwrap();
    assert_eq!(client.rest_client().timeout(), Some(Duration::from_millis(1500)));
}

#[test]
fn a_built_client_prepares_requests() {
    let client = PolygonClientBuilder::new().auth_key("test-key").build(None).unwrap();
    let get = client.rest_client().prepare(&TickersRequest::new());
    assert_eq!(get.url, "https://api.polygon.io/v3/reference/tickers");
    assert_eq!(get.authorization, "Bearer test-key");
    assert_eq!(get.query, vec![("active".to_string(), "true".to_string())]);
}
