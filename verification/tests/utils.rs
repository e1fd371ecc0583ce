use polygon_io_client_rust::params::Parameters;
use polygon_io_client_rust::tickers::TickersRequest;
use polygon_io_client_rust::common::Order;
use polygon_io_client_rust::utils::params_to_query_string;

#[test]
fn query_string_of_no_parameter_is_empty() {
    assert_eq!(params_to_query_string(&Parameters::new()), "");
}

#[test]
fn query_string_of_one_parameter_has_no_ampersand() {
    let mut p = Parameters::new();
    p.insert("ticker".to_string(), "AAPL".to_string());
    assert_eq!(params_to_query_string(&p), "ticker=AAPL");
}

#[test]
fn query_string_joins_ticker_and_order() {
    let mut p = Parameters::new();
    p.insert("ticker".to_string(), "AAPL".to_string());
    p.insert("order".to_string(), "desc".to_string());
    let query = params_to_query_string(&p);
    let parts: Vec<&str> = query.split('&').collect();
    assert_eq!(parts.len(), 2);
    assert!(parts.contains(&"ticker=AAPL"));
    assert!(parts.contains(&"order=desc"));
    assert!(!query.starts_with('&'));
    assert!(!query.ends_with('&'));
    assert_eq!(query, "ticker=AAPL&order=desc");
}

#[test]
fn query_string_follows_the_order_of_the_mapping() {
    let mut p = Parameters::new();
    p.insert("b".to_string(), "2".to_string());
    p.insert("a".to_string(), "1".to_string());
    p.insert("c".to_string(), "".to_string());
    p.insert("b".to_string(), "3".to_string());
    assert_eq!(params_to_query_string(&p), "b=3&a=1&c=");
}

#[test]
fn query_string_encodes_nothing() {
    let mut p = Parameters::new();
    p.insert("search".to_string(), "a b&c".to_string());
    assert_eq!(params_to_query_string(&p), "search=a b&c");
}

#[test]
fn query_string_of_a_tickers_request() {
    let request = TickersRequest::new().ticker("AAPL").order(Order::Desc).limit(5);
    assert_eq!(
        params_to_query_string(&request.parameters),
        "active=true&ticker=AAPL&order=desc&limit=5"
    );
}
