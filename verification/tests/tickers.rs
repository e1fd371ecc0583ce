use polygon_io_client_rust::common::{Market, Order};
use polygon_io_client_rust::date::Date;
use polygon_io_client_rust::params::Parameters;
use polygon_io_client_rust::rest_client::RequestType;
use polygon_io_client_rust::tickers::{
    TickersRequest, TickersResponse, TickersResponseFields, TickersResult, TickersResultFields,
    TickersSort, TICKERS_PATH,
};

fn held<'a>(p: &'a Parameters, key: &str) -> Option<&'a str> {
    p.get(key).map(|v| v.as_str())
}

fn only(request: &TickersRequest, key: &str, value: &str) {
    assert_eq!(request.parameters.len(), 1, "{}", key);
    assert_eq!(held(&request.parameters, key), Some(value), "{}", key);
    assert_eq!(request.path, "/v3/reference/tickers");
}

#[test]
fn tickers_new_asks_for_active_tickers() {
    let request = TickersRequest::new();
    assert_eq!(request.path, "/v3/reference/tickers");
    assert_eq!(request.path, TICKERS_PATH);
    assert_eq!(request.parameters.len(), 1);
    assert_eq!(held(&request.parameters, "active"), Some("true"));
}

#[test]
fn tickers_default_holds_no_parameter() {
    let request = TickersRequest::default();
    assert_eq!(request.path, "/v3/reference/tickers");
    assert!(request.parameters.is_empty());
}

#[test]
fn tickers_setters_write_their_own_names() {
    only(&TickersRequest::default().ticker("AAPL"), "ticker", "AAPL");
    only(&TickersRequest::default().ticker_gt("A"), "ticker.gt", "A");
    only(&TickersRequest::default().ticker_gte("B"), "ticker.gte", "B");
    only(&TickersRequest::default().ticker_lt("C"), "ticker.lt", "C");
    only(&TickersRequest::default().ticker_lte("D"), "ticker.lte", "D");
    only(&TickersRequest::default().market(Market::Stocks), "market", "stocks");
    only(&TickersRequest::default().market(Market::FX), "market", "fx");
    only(&TickersRequest::default().exchange("XNAS"), "exchange", "XNAS");
    only(&TickersRequest::default().cusip("037833100"), "cusip", "037833100");
    only(&TickersRequest::default().cik("0000320193"), "cik", "0000320193");
    only(&TickersRequest::default().search("apple inc"), "search", "apple inc");
    only(&TickersRequest::default().active(true), "active", "true");
    only(&TickersRequest::default().active(false), "active", "false");
    only(&TickersRequest::default().order(Order::Asc), "order", "asc");
    only(&TickersRequest::default().order(Order::Desc), "order", "desc");
    only(&TickersRequest::default().limit(100), "limit", "100");
    only(&TickersRequest::default().sort(TickersSort::Name), "sort", "name");
    only(
        &TickersRequest::default().sort(TickersSort::Last_Updated_Utc),
        "sort",
        "last_updated_utc",
    );
}

#[test]
fn tickers_date_is_written_in_iso_form() {
    let date = Date::from_calendar_date(2023, 6, 28).unwrap();
    only(&TickersRequest::default().date(date), "date", "2023-06-28");
}

#[test]
fn tickers_limit_is_capped_at_one_thousand() {
    only(&TickersRequest::default().limit(0), "limit", "0");
    only(&TickersRequest::default().limit(1), "limit", "1");
    only(&TickersRequest::default().limit(999), "limit", "999");
    only(&TickersRequest::default().limit(1000), "limit", "1000");
    only(&TickersRequest::default().limit(1001), "limit", "1000");
    only(&TickersRequest::default().limit(5000), "limit", "1000");
    only(&TickersRequest::default().limit(u32::MAX), "limit", "1000");
}

#[test]
fn tickers_chain_holds_exactly_what_was_set() {
    let request = TickersRequest::new()
        .ticker("AAPL")
        .market(Market::Stocks)
        .exchange("XNAS")
        .date(Date::from_calendar_date(2023, 6, 28).unwrap())
        .order(Order::Desc)
        .sort(TickersSort::Name);
    let p = &request.parameters;
    assert_eq!(p.len(), 7);
    assert_eq!(held(p, "active"), Some("true"));
    assert_eq!(held(p, "ticker"), Some("AAPL"));
    assert_eq!(held(p, "market"), Some("stocks"));
    assert_eq!(held(p, "exchange"), Some("XNAS"));
    assert_eq!(held(p, "date"), Some("2023-06-28"));
    assert_eq!(held(p, "order"), Some("desc"));
    assert_eq!(held(p, "sort"), Some("name"));
    assert_eq!(held(p, "limit"), None);
    assert_eq!(held(p, "search"), None);
}

#[test]
fn tickers_last_write_wins() {
    let request = TickersRequest::new()
        .ticker("AAPL")
        .active(false)
        .limit(10)
        .ticker("MSFT")
        .limit(2000)
        .ticker("BP");
    let p = &request.parameters;
    assert_eq!(p.len(), 3);
    assert_eq!(held(p, "ticker"), Some("BP"));
    assert_eq!(held(p, "active"), Some("false"));
    assert_eq!(held(p, "limit"), Some("1000"));
}

#[test]
fn tickers_comparison_setters_are_independent() {
    let request = TickersRequest::default().ticker_gt("A").ticker_lt("C").ticker_gte("B").ticker("X");
    let p = &request.parameters;
    assert_eq!(p.len(), 4);
    assert_eq!(held(p, "ticker.gt"), Some("A"));
    assert_eq!(held(p, "ticker.lt"), Some("C"));
    assert_eq!(held(p, "ticker.gte"), Some("B"));
    assert_eq!(held(p, "ticker"), Some("X"));
}

#[test]
fn tickers_request_describes_itself() {
    let request = TickersRequest::new().ticker("AAPL");
    assert!(request.is_ready());
    assert_eq!(request.get_url(), "/v3/reference/tickers");
    let query = request.get_query();
    assert_eq!(query.len(), 2);
    assert_eq!((query[0].0.as_str(), query[0].1.as_str()), ("active", "true"));
    assert_eq!((query[1].0.as_str(), query[1].1.as_str()), ("ticker", "AAPL"));
}

#[test]
fn tickers_records_without_fields_hold_zero_values() {
    let response = TickersResponse::from_fields(TickersResponseFields::default());
    assert_eq!(response.count, 0);
    assert_eq!(response.next_url, "");
    assert_eq!(response.request_id, "");
    assert!(response.results.is_empty());
    assert_eq!(response.status, "");
    let result = TickersResult::from_fields(TickersResultFields::default());
    assert!(!result.active);
    assert_eq!(result.cik, "");
    assert_eq!(result.composite_figi, "");
    assert_eq!(result.currency_name, "");
    assert_eq!(result.delisted_utc, "");
    assert_eq!(result.last_updated_utc, "");
    assert_eq!(result.locale, "");
    assert_eq!(result.market, "");
    assert_eq!(result.name, "");
    assert_eq!(result.primary_exchange, "");
    assert_eq!(result.share_class_figi, "");
    assert_eq!(result.ticker, "");
    assert_eq!(result.asset_type, "");
}

#[test]
fn tickers_records_hold_every_field_that_is_there() {
    let result = TickersResult::from_fields(TickersResultFields {
        active: Some(true),
        cik: Some("0000320193".to_string()),
        composite_figi: Some("BBG000B9XRY4".to_string()),
        currency_name: Some("usd".to_string()),
        delisted_utc: Some("2024-01-01T00:00:00Z".to_string()),
        last_updated_utc: Some("2023-06-28T00:00:00Z".to_string()),
        locale: Some("us".to_string()),
        market: Some("stocks".to_string()),
        name: Some("Apple Inc.".to_string()),
        primary_exchange: Some("XNAS".to_string()),
        share_class_figi: Some("BBG001S5N8V8".to_string()),
        ticker: Some("AAPL".to_string()),
        asset_type: Some("CS".to_string()),
    });
    assert!(result.active);
    assert_eq!(result.cik, "0000320193");
    assert_eq!(result.composite_figi, "BBG000B9XRY4");
    assert_eq!(result.currency_name, "usd");
    assert_eq!(result.delisted_utc, "2024-01-01T00:00:00Z");
    assert_eq!(result.last_updated_utc, "2023-06-28T00:00:00Z");
    assert_eq!(result.locale, "us");
    assert_eq!(result.market, "stocks");
    assert_eq!(result.name, "Apple Inc.");
    assert_eq!(result.primary_exchange, "XNAS");
    assert_eq!(result.share_class_figi, "BBG001S5N8V8");
    assert_eq!(result.ticker, "AAPL");
    assert_eq!(result.asset_type, "CS");
}

#[test]
fn tickers_response_reads_its_results_in_order() {
    let response = TickersResponse::from_fields(TickersResponseFields {
        count: Some(2),
        next_url: None,
        request_id: Some("31d59dda".to_string()),
        results: Some(vec![
            TickersResultFields {
                active: Some(true),
                ticker: Some("AAPL".to_string()),
                ..TickersResultFields::default()
            },
            TickersResultFields {
                name: Some("BP p.l.c.".to_string()),
                ticker: Some("BP".to_string()),
                ..TickersResultFields::default()
            },
        ]),
        status: Some("OK".to_string()),
    });
    assert_eq!(response.count, 2);
    assert_eq!(response.next_url, "");
    assert_eq!(response.request_id, "31d59dda");
    assert_eq!(response.status, "OK");
    assert_eq!(response.results.len(), 2);
    assert_eq!(response.results[0].ticker, "AAPL");
    assert!(response.results[0].active);
    assert_eq!(response.results[0].name, "");
    assert_eq!(response.results[1].ticker, "BP");
    assert!(!response.results[1].active);
    assert_eq!(response.results[1].name, "BP p.l.c.");
    assert_eq!(response.results[1].market, "");
}

#[test]
fn tickers_response_with_an_empty_list_of_results() {
    let response = TickersResponse::from_fields(TickersResponseFields {
        results: Some(Vec::new()),
        count: Some(-1),
        ..TickersResponseFields::default()
    });
    assert!(response.results.is_empty());
    assert_eq!(response.count, -1);
}
