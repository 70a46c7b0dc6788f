use binance::api::{Api, Method, PortfolioMargin};
use binance::portfolio_margin::{
    OrderRequest, OrderSide, OrderType, PortfolioMarginAccount, PositionSide, ResponseType,
    SelfTradePreventionMode, TimeInForce, WorkingType,
};

fn account() -> PortfolioMarginAccount {
    PortfolioMarginAccount { recv_window: 5000 }
}

#[test]
fn enum_names() {
    assert_eq!(OrderSide::Buy.to_string(), "BUY");
    assert_eq!(PositionSide::Short.to_string(), "SHORT");
    assert_eq!(OrderType::TrailingStopMarket.to_string(), "TRAILING_STOP_MARKET");
    assert_eq!(OrderType::StopMarket.to_string(), "STOP_MARKET");
    assert_eq!(WorkingType::MarkPrice.to_string(), "MARK_PRICE");
    assert_eq!(TimeInForce::GTX.to_string(), "GTX");
    assert_eq!(ResponseType::Result.to_string(), "RESULT");
    assert_eq!(SelfTradePreventionMode::ExpireBoth.to_string(), "EXPIRE_BOTH");
}

#[test]
fn with_defaults_leaves_options_empty() {
    let o = OrderRequest::with_defaults("id1".to_string(), "BTCUSDT".to_string(), OrderSide::Sell, OrderType::Limit);
    assert_eq!(o.new_client_order_id, "id1");
    assert_eq!(o.symbol, "BTCUSDT");
    assert_eq!(o.side, OrderSide::Sell);
    assert_eq!(o.order_type, OrderType::Limit);
    assert!(o.qty.is_none() && o.price.is_none() && o.reduce_only.is_none());
    assert!(o.position_side.is_none() && o.self_trade_prevention_mode.is_none());
}

#[test]
fn build_plain_order() {
    let mut o = OrderRequest::with_defaults("id1".to_string(), "BTCUSDT".to_string(), OrderSide::Buy, OrderType::Limit);
    o.qty = Some("0.5".to_string());
    o.price = Some("30000".to_string());
    o.time_in_force = Some(TimeInForce::GTC);
    o.reduce_only = Some(false);
    let p = account().build_order(o);
    assert_eq!(
        p.build_request(),
        "newClientOrderId=id1&price=30000&quantity=0.5&reduceOnly=FALSE&side=BUY&symbol=BTCUSDT&timeInForce=GTC&type=LIMIT"
    );
}

#[test]
fn build_conditional_order() {
    let mut o = OrderRequest::with_defaults("s1".to_string(), "ETHUSDT".to_string(), OrderSide::Sell, OrderType::StopMarket);
    o.stop_price = Some("1800.5".to_string());
    o.working_type = Some(WorkingType::ContractPrice);
    o.price_protect = Some("inf".to_string());
    o.position_side = Some(PositionSide::Long);
    o.response_type = Some(ResponseType::Ack);
    o.reduce_only = Some(true);
    o.self_trade_prevention_mode = Some(SelfTradePreventionMode::ExpireMaker);
    let p = account().build_order(o);
    assert_eq!(
        p.build_request(),
        "newClientStrategyId=s1&newOrderRespType=ACK&positionSide=LONG&priceProtect=INF&reduceOnly=TRUE&side=SELL&stopPrice=1800.5&strategyType=STOP_MARKET&symbol=ETHUSDT&workingType=CONTRACT_PRICE"
    );
}

#[test]
fn post_order_endpoints() {
    let a = account();
    let plain = OrderRequest::with_defaults("i".to_string(), "X".to_string(), OrderSide::Buy, OrderType::Market);
    let cond = OrderRequest::with_defaults("i".to_string(), "X".to_string(), OrderSide::Buy, OrderType::TakeProfit);
    let r = a.post_order(plain.clone(), "inverse", 1);
    assert_eq!(r.method, Method::Post);
    assert!(r.signed);
    assert_eq!(r.api, Api::PortfolioMargin(PortfolioMargin::OrderCM));
    assert_eq!(r.query, "newClientOrderId=i&recvWindow=5000&side=BUY&symbol=X&timestamp=1&type=MARKET");
    assert_eq!(a.post_order(plain, "linear", 1).api, Api::PortfolioMargin(PortfolioMargin::OrderUM));
    assert_eq!(a.post_order(cond.clone(), "inverse", 1).api, Api::PortfolioMargin(PortfolioMargin::ConditionalOrderCM));
    assert_eq!(a.post_order(cond, "", 1).api, Api::PortfolioMargin(PortfolioMargin::ConditionalOrderUM));
}

#[test]
fn cancel_plain_order_by_client_id() {
    let r = account().cancel_order_with_client_id("BTCUSDT", "LIMIT", "abc", "inverse", 42);
    assert_eq!(r.method, Method::Delete);
    assert_eq!(r.api, Api::PortfolioMargin(PortfolioMargin::OrderCM));
    assert_eq!(r.query, "origClientOrderId=abc&recvWindow=5000&symbol=BTCUSDT&timestamp=42");
}

#[test]
fn cancel_conditional_order_by_client_id() {
    let r = account().cancel_order_with_client_id("BTCUSDT", "STOP", "abc", "usdm", 42);
    assert_eq!(r.api, Api::PortfolioMargin(PortfolioMargin::ConditionalOrderUM));
    assert_eq!(r.query, "newClientStrategyId=abc&recvWindow=5000&symbol=BTCUSDT&timestamp=42");
}

#[test]
fn position_information_request() {
    let r = account().get_position_information("BTCUSD_PERP", "inverse", 9);
    assert_eq!(r.method, Method::Get);
    assert_eq!(r.api, Api::PortfolioMargin(PortfolioMargin::PositionRiskCM));
    assert_eq!(r.query, "recvWindow=5000&symbol=BTCUSD_PERP&timestamp=9");
    let r = account().get_position_information("BTCUSDT", "INVERSE", 9);
    assert_eq!(r.api, Api::PortfolioMargin(PortfolioMargin::PositionRiskUM));
}

#[test]
fn account_information_and_balance_requests() {
    let a = PortfolioMarginAccount { recv_window: 0 };
    let r = a.get_account_information(5);
    assert_eq!(r.api, Api::PortfolioMargin(PortfolioMargin::Account));
    assert_eq!(r.query, "timestamp=5");
    let r = a.get_account_balance(6);
    assert_eq!(r.api, Api::PortfolioMargin(PortfolioMargin::Balance));
    assert_eq!(r.query, "timestamp=6");
}

#[test]
fn cancel_all_requests() {
    let (a, b) = account().cancel_all_open_orders("BTCUSDT", "inverse", 3);
    assert_eq!(a.api, Api::PortfolioMargin(PortfolioMargin::CancelAllOpenOrdersCM));
    assert_eq!(b.api, Api::PortfolioMargin(PortfolioMargin::CancelAllConditionalOpenOrdersCM));
    assert_eq!(a.method, Method::Delete);
    assert_eq!(a.query, "recvWindow=5000&symbol=BTCUSDT&timestamp=3");
    assert_eq!(a.query, b.query);
    let (a, b) = account().cancel_all_open_orders("BTCUSDT", "linear", 3);
    assert_eq!(a.api, Api::PortfolioMargin(PortfolioMargin::CancelAllOpenOrdersUM));
    assert_eq!(b.api, Api::PortfolioMargin(PortfolioMargin::CancelAllConditionalOpenOrdersUM));
}

#[test]
fn cancel_all_outcome_reports_first_error() {
    let ok: Result<(), i32> = Ok(());
    assert_eq!(PortfolioMarginAccount::cancel_all_outcome(ok, Ok(())), Ok(()));
    assert_eq!(PortfolioMarginAccount::cancel_all_outcome(Err(1), Err(2)), Err(1));
    assert_eq!(PortfolioMarginAccount::cancel_all_outcome(Ok(()), Err(2)), Err(2));
    assert_eq!(PortfolioMarginAccount::cancel_all_outcome(Err(1), Ok(())), Err(1));
}

#[test]
fn open_orders_requests() {
    let r = account().get_all_open_orders("BTCUSD_PERP", "inverse", 8);
    assert_eq!(r.len(), 2);
    assert_eq!(r[0].api, Api::PortfolioMargin(PortfolioMargin::OpenOrdersCM));
    assert_eq!(r[0].query, "recvWindow=5000&symbol=BTCUSD_PERP&timestamp=8");
    assert_eq!(r[1].api, Api::PortfolioMargin(PortfolioMargin::ConditionalOpenOrdersCM));
    assert_eq!(r[1].query, "recvWindow=5000&timestamp=8");
    let r = account().get_all_open_orders("BTCUSDT", "linear", 8);
    assert_eq!(r.len(), 1);
    assert_eq!(r[0].api, Api::PortfolioMargin(PortfolioMargin::OpenOrdersUM));
    assert_eq!(r[0].method, Method::Get);
}
