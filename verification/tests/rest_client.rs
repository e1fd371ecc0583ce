use polygon_io_client_rust::common::Order;
use polygon_io_client_rust::date::Date;
use polygon_io_client_rust::dividends::DividendRequest;
use polygon_io_client_rust::rest_client::{Body, Exchange, RequestError, RestClient, Step};
use polygon_io_client_rust::ticker_details::TickerDetailsRequest;
use polygon_io_client_rust::ticker_news::TickerNewsRequest;
use polygon_io_client_rust::tickers::{TickersRequest, TickersResponse, TickersResponseFields};
use std::time::Duration;

fn client() -> RestClient {
    RestClient::new("https://api.polygon.io".to_string(), "test-key".to_string(), None).unwrap()
}

fn pairs(query: &[(String, String)]) -> Vec<(&str, &str)> {
    query.iter().map(|(k, v)| (k.as_str(), v.as_str())).collect()
}

#[test]
fn rest_client_keeps_its_configuration() {
    let client = RestClient::new(
        "http://localhost:8080".to_string(),
        "token".to_string(),
        Some(Duration::from_secs(5)),
    )
    .unwrap();
    assert_eq!(client.api_url(), "http://localhost:8080");
    assert_eq!(client.auth_key(), "token");
    assert_eq!(client.timeout(), Some(Duration::from_secs(5)));
    assert_eq!(self::client().timeout(), None);
}

#[test]
fn prepare_tickers_request() {
    let request = TickersRequest::new().ticker("AAPL").order(Order::Desc);
    let get = client().prepare(&request);
    assert_eq!(get.url, "https://api.polygon.io/v3/reference/tickers");
    assert_eq!(
        pairs(&get.query),
        vec![("active", "true"), ("ticker", "AAPL"), ("order", "desc")]
    );
    assert_eq!(get.authorization, "Bearer test-key");
}

#[test]
fn prepare_ticker_details_request() {
    let request = TickerDetailsRequest::new()
        .ticker("BP")
        .date(Date::from_calendar_date(2023, 6, 28).unwrap());
    let get = client().prepare(&request);
    assert_eq!(get.url, "https://api.polygon.io/v3/reference/tickers/BP");
    assert_eq!(pairs(&get.query), vec![("date", "2023-06-28")]);
    assert_eq!(get.authorization, "Bearer test-key");
}

#[test]
fn prepare_news_and_dividends_requests() {
    let get = client().prepare(&TickerNewsRequest::new().limit(3));
    assert_eq!(get.url, "https://api.polygon.io/v2/reference/news");
    assert_eq!(pairs(&get.query), vec![("limit", "3")]);
    let get = client().prepare(&DividendRequest::new());
    assert_eq!(get.url, "https://api.polygon.io/v3/reference/dividends");
    assert!(get.query.is_empty());
}

#[test]
fn prepare_uses_the_base_url_and_token_of_the_client() {
    let client =
        RestClient::new("http://localhost:8080".to_string(), "abc def".to_string(), None).unwrap();
    let get = client.prepare(&TickersRequest::default());
    assert_eq!(get.url, "http://localhost:8080/v3/reference/tickers");
    assert!(get.query.is_empty());
    assert_eq!(get.authorization, "Bearer abc def");
}

#[test]
fn status_200_asks_for_the_body() {
    assert!(matches!(RestClient::on_exchange(Exchange::Responded(200)), Step::Decode));
}

#[test]
fn status_401_is_a_remote_error_that_carries_the_status() {
    assert!(matches!(
        RestClient::on_exchange(Exchange::Responded(401)),
        Step::Fail(RequestError::Remote(401))
    ));
}

#[test]
fn every_other_status_is_a_remote_error() {
    for status in [100u16, 199, 201, 204, 301, 400, 403, 404, 429, 500, 503, 0, 65535] {
        match RestClient::on_exchange(Exchange::Responded(status)) {
            Step::Fail(RequestError::Remote(carried)) => assert_eq!(carried, status),
            other => panic!("status {} gave {:?}", status, other),
        }
    }
}

#[test]
fn a_failed_exchange_is_a_transport_error() {
    match RestClient::on_exchange(Exchange::Failed("connection refused".to_string())) {
        Step::Fail(RequestError::Transport(message)) => assert_eq!(message, "connection refused"),
        other => panic!("{:?}", other),
    }
}

#[test]
fn a_decoded_body_is_the_result() {
    let record = TickersResponse::from_fields(TickersResponseFields {
        count: Some(3),
        status: Some("OK".to_string()),
        ..TickersResponseFields::default()
    });
    match RestClient::on_body(Body::Decoded(record)) {
        Ok(record) => {
            assert_eq!(record.count, 3);
            assert_eq!(record.status, "OK");
        }
        Err(error) => panic!("{:?}", error),
    }
}

#[test]
fn a_malformed_body_is_a_decode_error() {
    let body: Body<TickersResponse> = Body::Malformed("expected value at line 1".to_string());
    match RestClient::on_body(body) {
        Err(RequestError::Decode(message)) => assert_eq!(message, "expected value at line 1"),
        other => panic!("{:?}", other),
    }
}

#[test]
fn an_unreadable_body_is_a_transport_error() {
    let body: Body<TickersResponse> = Body::Unreadable("timed out".to_string());
    match RestClient::on_body(body) {
        Err(RequestError::Transport(message)) => assert_eq!(message, "timed out"),
        other => panic!("{:?}", other),
    }
}
