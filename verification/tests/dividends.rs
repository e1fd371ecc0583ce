use polygon_io_client_rust::common::Order;
use polygon_io_client_rust::dividends::{
    DividendFrequency, DividendRequest, DividendSort, DividendType, DIVIDENDS_PATH,
};
use polygon_io_client_rust::rest_client::RequestType;

fn only(request: &DividendRequest, key: &str, value: &str) {
    assert_eq!(request.parameters.len(), 1, "{}", key);
    assert_eq!(request.parameters.get(key).map(|v| v.as_str()), Some(value), "{}", key);
}

#[test]
fn dividends_new_holds_no_parameter() {
    let request = DividendRequest::new();
    assert!(request.parameters.is_empty());
    assert!(request.is_ready());
    assert_eq!(request.get_url(), "/v3/reference/dividends");
    assert_eq!(DIVIDENDS_PATH, "/v3/reference/dividends");
    assert!(request.get_query().is_empty());
}

#[test]
fn dividends_ticker_setters_write_their_own_names() {
    only(&DividendRequest::new().ticker("AAPL"), "ticker", "AAPL");
    only(&DividendRequest::new().ticker_gt("A"), "ticker.gt", "A");
    only(&DividendRequest::new().ticker_gte("B"), "ticker.gte", "B");
    only(&DividendRequest::new().ticker_lt("C"), "ticker.lt", "C");
    only(&DividendRequest::new().ticker_lte("D"), "ticker.lte", "D");
}

#[test]
fn dividends_date_setters_write_their_own_names() {
    only(&DividendRequest::new().ex_dividend_date("2023-01-01"), "ex_dividend_date", "2023-01-01");
    only(&DividendRequest::new().ex_dividend_date_gt("2023-01-02"), "ex_dividend_date.gt", "2023-01-02");
    only(&DividendRequest::new().ex_dividend_date_gte("2023-01-03"), "ex_dividend_date.gte", "2023-01-03");
    only(&DividendRequest::new().ex_dividend_date_lt("2023-01-04"), "ex_dividend_date.lt", "2023-01-04");
    only(&DividendRequest::new().ex_dividend_date_lte("2023-01-05"), "ex_dividend_date.lte", "2023-01-05");
    only(&DividendRequest::new().record_date("2023-02-01"), "record_date", "2023-02-01");
    only(&DividendRequest::new().record_date_gt("2023-02-02"), "record_date.gt", "2023-02-02");
    only(&DividendRequest::new().record_date_gte("2023-02-03"), "record_date.gte", "2023-02-03");
    only(&DividendRequest::new().record_date_lt("2023-02-04"), "record_date.lt", "2023-02-04");
    only(&DividendRequest::new().record_date_lte("2023-02-05"), "record_date.lte", "2023-02-05");
    only(&DividendRequest::new().declaration_date("2023-03-01"), "declaration_date", "2023-03-01");
    only(&DividendRequest::new().declaration_date_gt("2023-03-02"), "declaration_date.gt", "2023-03-02");
    only(&DividendRequest::new().declaration_date_gte("2023-03-03"), "declaration_date.gte", "2023-03-03");
    only(&DividendRequest::new().declaration_date_lt("2023-03-04"), "declaration_date.lt", "2023-03-04");
    only(&DividendRequest::new().declaration_date_lte("2023-03-05"), "declaration_date.lte", "2023-03-05");
    only(&DividendRequest::new().pay_date("2023-04-01"), "pay_date", "2023-04-01");
    only(&DividendRequest::new().pay_date_gt("2023-04-02"), "pay_date.gt", "2023-04-02");
    only(&DividendRequest::new().pay_date_gte("2023-04-03"), "pay_date.gte", "2023-04-03");
    only(&DividendRequest::new().pay_date_lt("2023-04-04"), "pay_date.lt", "2023-04-04");
    only(&DividendRequest::new().pay_date_lte("2023-04-05"), "pay_date.lte", "2023-04-05");
}

#[test]
fn dividends_cash_amount_setters_write_their_own_names() {
    only(&DividendRequest::new().cash_amount("0.22"), "cash_amount", "0.22");
    only(&DividendRequest::new().cash_amount_gt("0.1"), "cash_amount.gt", "0.1");
    only(&DividendRequest::new().cash_amount_gte("0.2"), "cash_amount.gte", "0.2");
    only(&DividendRequest::new().cash_amount_lt("0.3"), "cash_amount.lt", "0.3");
    only(&DividendRequest::new().cash_amount_lte("0.4"), "cash_amount.lte", "0.4");
}

#[test]
fn dividends_constant_setters_write_wire_forms() {
    only(&DividendRequest::new().frequency(DividendFrequency::one_time), "frequency", "0");
    only(&DividendRequest::new().frequency(DividendFrequency::annually), "frequency", "1");
    only(&DividendRequest::new().frequency(DividendFrequency::bi_annually), "frequency", "2");
    only(&DividendRequest::new().frequency(DividendFrequency::quarterly), "frequency", "4");
    only(&DividendRequest::new().frequency(DividendFrequency::monthly), "frequency", "12");
    only(&DividendRequest::new().dividend_type(DividendType::CD), "dividend_type", "cd");
    only(&DividendRequest::new().dividend_type(DividendType::SC), "dividend_type", "sc");
    only(&DividendRequest::new().dividend_type(DividendType::LT), "dividend_type", "lt");
    only(&DividendRequest::new().dividend_type(DividendType::ST), "dividend_type", "st");
    only(&DividendRequest::new().order(Order::Asc), "order", "asc");
    only(&DividendRequest::new().order(Order::Desc), "order", "desc");
    only(&DividendRequest::new().sort(DividendSort::Cash_Amount), "sort", "cash_amount");
    only(&DividendRequest::new().sort(DividendSort::Ex_Dividend_Date), "sort", "ex_dividend_date");
}

#[test]
fn dividends_limit_is_capped_at_one_thousand() {
    only(&DividendRequest::new().limit(0), "limit", "0");
    only(&DividendRequest::new().limit(250), "limit", "250");
    only(&DividendRequest::new().limit(1000), "limit", "1000");
    only(&DividendRequest::new().limit(1001), "limit", "1000");
    only(&DividendRequest::new().limit(u32::MAX), "limit", "1000");
}

#[test]
fn dividends_chain_holds_exactly_what_was_set() {
    let request = DividendRequest::new()
        .ticker("AAPL")
        .order(Order::Desc)
        .frequency(DividendFrequency::quarterly)
        .sort(DividendSort::Cash_Amount);
    let p = &request.parameters;
    assert_eq!(p.len(), 4);
    assert_eq!(p.get("ticker").map(|v| v.as_str()), Some("AAPL"));
    assert_eq!(p.get("order").map(|v| v.as_str()), Some("desc"));
    assert_eq!(p.get("frequency").map(|v| v.as_str()), Some("4"));
    assert_eq!(p.get("sort").map(|v| v.as_str()), Some("cash_amount"));
    assert_eq!(p.get("limit"), None);
}

#[test]
fn dividends_last_write_wins() {
    let request = DividendRequest::new()
        .pay_date_gt("2023-01-01")
        .frequency(DividendFrequency::monthly)
        .pay_date_gt("2024-01-01")
        .frequency(DividendFrequency::annually)
        .pay_date_lt("2025-01-01");
    let p = &request.parameters;
    assert_eq!(p.len(), 3);
    assert_eq!(p.get("pay_date.gt").map(|v| v.as_str()), Some("2024-01-01"));
    assert_eq!(p.get("pay_date.lt").map(|v| v.as_str()), Some("2025-01-01"));
    assert_eq!(p.get("frequency").map(|v| v.as_str()), Some("1"));
}
