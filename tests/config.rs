use binance::config::Config;

#[test]
fn default_config_points_at_production() {
    let c = Config::default();
    assert_eq!(c.rest_api_endpoint, "https://api.binance.com");
    assert_eq!(c.ws_endpoint, "wss://stream.binance.com/ws");
    assert_eq!(c.portfolio_margin_rest_api_endpoint, "https://papi.binance.com");
    assert_eq!(c.futures_rest_api_endpoint, "https://fapi.binance.com");
    assert_eq!(c.futures_cm_rest_api_endpoint, "https://dapi.binance.com");
    assert_eq!(c.futures_ws_endpoint, "wss://fstream.binance.com/ws");
    assert_eq!(c.recv_window, 5000);
}

#[test]
fn testnet_config_points_at_test_network() {
    let c = Config::testnet();
    assert_eq!(c.rest_api_endpoint, "https://testnet.binance.vision");
    assert_eq!(c.ws_endpoint, "wss://testnet.binance.vision/ws");
    assert_eq!(c.portfolio_margin_rest_api_endpoint, "https://testnet.binance.vision");
    assert_eq!(c.futures_rest_api_endpoint, "https://testnet.binancefuture.com");
    assert_eq!(c.futures_cm_rest_api_endpoint, "https://testnet.binancefuture.com");
    assert_eq!(c.futures_ws_endpoint, "https://testnet.binancefuture.com/ws");
    assert_eq!(c.recv_window, 5000);
}

#[test]
fn setters_replace_one_field_each() {
    let c = Config::default()
        .set_rest_api_endpoint("a")
        .set_ws_endpoint("b")
        .set_portfolio_margin_rest_api_endpoint("c")
        .set_futures_rest_api_endpoint("d")
        .set_futures_cm_rest_api_endpoint("e")
        .set_futures_ws_endpoint("f")
        .set_recv_window(10);
    assert_eq!(c.rest_api_endpoint, "a");
    assert_eq!(c.ws_endpoint, "b");
    assert_eq!(c.portfolio_margin_rest_api_endpoint, "c");
    assert_eq!(c.futures_rest_api_endpoint, "d");
    assert_eq!(c.futures_cm_rest_api_endpoint, "e");
    assert_eq!(c.futures_ws_endpoint, "f");
    assert_eq!(c.recv_window, 10);
}

#[test]
fn set_recv_window_keeps_endpoints() {
    let c = Config::default().set_recv_window(0);
    assert_eq!(c.recv_window, 0);
    assert_eq!(c.rest_api_endpoint, "https://api.binance.com");
}
