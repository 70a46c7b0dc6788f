use binance::api::{Api, Method, PortfolioMargin, Request};
use binance::params::Parameters;

#[test]
fn empty_parameters_give_empty_query() {
    let p = Parameters::new();
    assert_eq!(p.len(), 0);
    assert_eq!(p.build_request(), "");
}

#[test]
fn keys_come_out_in_order() {
    let mut p = Parameters::new();
    p.insert("symbol", "BTCUSDT");
    p.insert("interval", "1m");
    p.insert("limit", "5");
    assert_eq!(p.build_request(), "interval=1m&limit=5&symbol=BTCUSDT");
}

#[test]
fn order_of_insertion_does_not_matter() {
    let mut a = Parameters::new();
    a.insert("b", "2");
    a.insert("a", "1");
    a.insert("c", "3");
    let mut b = Parameters::new();
    b.insert("c", "3");
    b.insert("a", "1");
    b.insert("b", "2");
    assert_eq!(a.build_request(), b.build_request());
    assert_eq!(a.build_request(), "a=1&b=2&c=3");
}

#[test]
fn same_key_replaces_value() {
    let mut p = Parameters::new();
    p.insert("symbol", "A");
    p.insert("symbol", "B");
    assert_eq!(p.len(), 1);
    assert_eq!(p.build_request(), "symbol=B");
}

#[test]
fn uppercase_sorts_before_lowercase() {
    let mut p = Parameters::new();
    p.insert("side", "BUY");
    p.insert("newClientOrderId", "x");
    p.insert("Zed", "1");
    p.insert("sid", "2");
    assert_eq!(p.build_request(), "Zed=1&newClientOrderId=x&sid=2&side=BUY");
}

#[test]
fn signed_request_adds_window_and_timestamp() {
    let mut p = Parameters::new();
    p.insert("symbol", "BTCUSDT");
    assert_eq!(
        p.build_signed_request(5000, 1700000000123),
        "recvWindow=5000&symbol=BTCUSDT&timestamp=1700000000123"
    );
}

#[test]
fn signed_request_without_window() {
    let p = Parameters::new();
    assert_eq!(p.build_signed_request(0, 7), "timestamp=7");
}

#[test]
fn signed_request_largest_numbers() {
    let p = Parameters::new();
    assert_eq!(
        p.build_signed_request(u64::MAX, u64::MAX),
        "recvWindow=18446744073709551615&timestamp=18446744073709551615"
    );
}

#[test]
fn signature_goes_last() {
    let r = Request {
        method: Method::Get,
        api: Api::PortfolioMargin(PortfolioMargin::Account),
        query: "timestamp=1".to_string(),
        signed: true,
    };
    assert_eq!(r.with_signature("abc"), "timestamp=1&signature=abc");
}

#[test]
fn endpoint_paths() {
    assert_eq!(Api::PortfolioMargin(PortfolioMargin::OrderUM).path(), "/papi/v1/um/order");
    assert_eq!(
        Api::PortfolioMargin(PortfolioMargin::ConditionalOpenOrdersCM).path(),
        "/papi/v1/cm/conditional/openOrders"
    );
    assert_eq!(Api::FuturesCM(binance::api::FuturesCM::Klines).path(), "/dapi/v1/klines");
}
