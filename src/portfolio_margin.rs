//! The portfolio-margin account: order parameters and the requests that
//! place, cancel and query orders and positions.

use vstd::prelude::*;
use crate::text::{owned, text_eq, uppercase, upper_of};
use crate::params::{Parameters, ParamView, inserted, put, signed_query, symbol_entries};
use crate::api::{Api, Method, PortfolioMargin, Request};

verus! {

/// The side of an order.
#[derive(Clone, Copy, Debug, PartialEq, Eq, Structural)]
pub enum OrderSide {
    Buy,
    Sell,
}

impl OrderSide {
    /// The exchange's name for the value.
    pub open spec fn text(self) -> Seq<char> {
        match self {
            OrderSide::Buy => "BUY"@,
            OrderSide::Sell => "SELL"@,
        }
    }

    pub fn to_string(&self) -> (r: String)
        ensures
            r@ == self.text(),
    {
        match self {
            OrderSide::Buy => owned("BUY"),
            OrderSide::Sell => owned("SELL"),
        }
    }
}

/// The position an order acts on in hedge mode.
#[derive(Clone, Copy, Debug, PartialEq, Eq, Structural)]
pub enum PositionSide {
    Both,
    Long,
    Short,
}

impl PositionSide {
    /// The exchange's name for the value.
    pub open spec fn text(self) -> Seq<char> {
        match self {
            PositionSide::Both => "BOTH"@,
            PositionSide::Long => "LONG"@,
            PositionSide::Short => "SHORT"@,
        }
    }

    pub fn to_string(&self) -> (r: String)
        ensures
            r@ == self.text(),
    {
        match self {
            PositionSide::Both => owned("BOTH"),
            PositionSide::Long => owned("LONG"),
            PositionSide::Short => owned("SHORT"),
        }
    }
}

/// The kind of an order; all but `Limit` and `Market` are conditional (strategy) orders.
#[derive(Clone, Copy, Debug, PartialEq, Eq, Structural)]
pub enum OrderType {
    Limit,
    Market,
    Stop,
    StopMarket,
    TakeProfit,
    TakeProfitMarket,
    TrailingStopMarket,
}

impl OrderType {
    /// The exchange's name for the value.
    pub open spec fn text(self) -> Seq<char> {
        match self {
            OrderType::Limit => "LIMIT"@,
            OrderType::Market => "MARKET"@,
            OrderType::Stop => "STOP"@,
            OrderType::StopMarket => "STOP_MARKET"@,
            OrderType::TakeProfit => "TAKE_PROFIT"@,
            OrderType::TakeProfitMarket => "TAKE_PROFIT_MARKET"@,
            OrderType::TrailingStopMarket => "TRAILING_STOP_MARKET"@,
        }
    }

    pub fn to_string(&self) -> (r: String)
        ensures
            r@ == self.text(),
    {
        match self {
            OrderType::Limit => owned("LIMIT"),
            OrderType::Market => owned("MARKET"),
            OrderType::Stop => owned("STOP"),
            OrderType::StopMarket => owned("STOP_MARKET"),
            OrderType::TakeProfit => owned("TAKE_PROFIT"),
            OrderType::TakeProfitMarket => owned("TAKE_PROFIT_MARKET"),
            OrderType::TrailingStopMarket => owned("TRAILING_STOP_MARKET"),
        }
    }
}

/// The price a stop order is triggered by.
#[derive(Clone, Copy, Debug, PartialEq, Eq, Structural)]
pub enum WorkingType {
    MarkPrice,
    ContractPrice,
}

impl WorkingType {
    /// The exchange's name for the value.
    pub open spec fn text(self) -> Seq<char> {
        match self {
            WorkingType::MarkPrice => "MARK_PRICE"@,
            WorkingType::ContractPrice => "CONTRACT_PRICE"@,
        }
    }

    pub fn to_string(&self) -> (r: String)
        ensures
            r@ == self.text(),
    {
        match self {
            WorkingType::MarkPrice => owned("MARK_PRICE"),
            WorkingType::ContractPrice => owned("CONTRACT_PRICE"),
        }
    }
}

/// How long an order stays working.
#[allow(clippy::upper_case_acronyms)]
#[derive(Clone, Copy, Debug, PartialEq, Eq, Structural)]
pub enum TimeInForce {
    GTC,
    IOC,
    FOK,
    GTX,
}

impl TimeInForce {
    /// The exchange's name for the value.
    pub open spec fn text(self) -> Seq<char> {
        match self {
            TimeInForce::GTC => "GTC"@,
            TimeInForce::IOC => "IOC"@,
            TimeInForce::FOK => "FOK"@,
            TimeInForce::GTX => "GTX"@,
        }
    }

    pub fn to_string(&self) -> (r: String)
        ensures
            r@ == self.text(),
    {
        match self {
            TimeInForce::GTC => owned("GTC"),
            TimeInForce::IOC => owned("IOC"),
            TimeInForce::FOK => owned("FOK"),
            TimeInForce::GTX => owned("GTX"),
        }
    }
}

/// How much the exchange answers to a new order.
#[derive(Clone, Copy, Debug, PartialEq, Eq, Structural)]
pub enum ResponseType {
    Ack,
    Result,
}

impl ResponseType {
    /// The exchange's name for the value.
    pub open spec fn text(self) -> Seq<char> {
        match self {
            ResponseType::Ack => "ACK"@,
            ResponseType::Result => "RESULT"@,
        }
    }

    pub fn to_string(&self) -> (r: String)
        ensures
            r@ == self.text(),
    {
        match self {
            ResponseType::Ack => owned("ACK"),
            ResponseType::Result => owned("RESULT"),
        }
    }
}

/// What happens when an order would trade against the same account.
#[derive(Clone, Copy, Debug, PartialEq, Eq, Structural)]
pub enum SelfTradePreventionMode {
    ExpireTaker,
    ExpireMaker,
    ExpireBoth,
}

impl SelfTradePreventionMode {
    /// The exchange's name for the value.
    pub open spec fn text(self) -> Seq<char> {
        match self {
            SelfTradePreventionMode::ExpireTaker => "EXPIRE_TAKER"@,
            SelfTradePreventionMode::ExpireMaker => "EXPIRE_MAKER"@,
            SelfTradePreventionMode::ExpireBoth => "EXPIRE_BOTH"@,
        }
    }

    pub fn to_string(&self) -> (r: String)
        ensures
            r@ == self.text(),
    {
        match self {
            SelfTradePreventionMode::ExpireTaker => owned("EXPIRE_TAKER"),
            SelfTradePreventionMode::ExpireMaker => owned("EXPIRE_MAKER"),
            SelfTradePreventionMode::ExpireBoth => owned("EXPIRE_BOTH"),
        }
    }
}

impl OrderType {
    /// A plain order; the other types are conditional (strategy) orders.
    pub open spec fn spec_is_plain(self) -> bool {
        self == OrderType::Limit || self == OrderType::Market
    }

    pub fn is_plain(&self) -> (r: bool)
        ensures
            r == self.spec_is_plain(),
    {
        match self {
            OrderType::Limit | OrderType::Market => true,
            _ => false,
        }
    }
}

/// An order to place. Decimal quantities (`qty`, the prices, `callback_rate`,
/// `price_protect`) are held as the decimal text that is sent.
#[derive(Clone, Debug)]
pub struct OrderRequest {
    pub new_client_order_id: String,
    pub symbol: String,
    pub side: OrderSide,
    pub position_side: Option<PositionSide>,
    pub order_type: OrderType,
    pub time_in_force: Option<TimeInForce>,
    pub qty: Option<String>,
    pub reduce_only: Option<bool>,
    pub price: Option<String>,
    pub stop_price: Option<String>,
    pub activation_price: Option<String>,
    pub callback_rate: Option<String>,
    pub working_type: Option<WorkingType>,
    pub price_protect: Option<String>,
    pub response_type: Option<ResponseType>,
    pub self_trade_prevention_mode: Option<SelfTradePreventionMode>,
}

impl OrderRequest {
    /// An order with the given identity, symbol, side and type and every
    /// optional field empty.
    pub fn with_defaults(
        new_client_order_id: String,
        symbol: String,
        side: OrderSide,
        order_type: OrderType,
    ) -> (r: OrderRequest)
        ensures
            r.new_client_order_id == new_client_order_id,
            r.symbol == symbol,
            r.side == side,
            r.order_type == order_type,
            r.position_side is None,
            r.time_in_force is None,
            r.qty is None,
            r.reduce_only is None,
            r.price is None,
            r.stop_price is None,
            r.activation_price is None,
            r.callback_rate is None,
            r.working_type is None,
            r.price_protect is None,
            r.response_type is None,
            r.self_trade_prevention_mode is None,
    {
        OrderRequest {
            new_client_order_id,
            symbol,
            side,
            order_type,
            position_side: None,
            time_in_force: None,
            qty: None,
            reduce_only: None,
            price: None,
            stop_price: None,
            activation_price: None,
            callback_rate: None,
            working_type: None,
            price_protect: None,
            response_type: None,
            self_trade_prevention_mode: None,
        }
    }
}

pub open spec fn opt_view(o: Option<String>) -> Option<Seq<char>> {
    match o {
        Some(s) => Some(s@),
        None => None,
    }
}

/// A flag as the exchange writes it.
pub open spec fn bool_text(b: bool) -> Seq<char> {
    if b { "TRUE"@ } else { "FALSE"@ }
}

/// The parameters of a new order. A plain order names its type under `type`
/// and its client id under `newClientOrderId`; a conditional one uses
/// `strategyType` and `newClientStrategyId`. Each optional field that is set
/// adds its parameter; the self-trade prevention mode is not sent.
pub open spec fn order_params(o: OrderRequest) -> Seq<ParamView> {
    let s = inserted(symbol_entries(o.symbol@), "side"@, o.side.text());
    let s = if o.order_type.spec_is_plain() {
        inserted(inserted(s, "type"@, o.order_type.text()), "newClientOrderId"@, o.new_client_order_id@)
    } else {
        inserted(inserted(s, "strategyType"@, o.order_type.text()), "newClientStrategyId"@, o.new_client_order_id@)
    };
    let s = put(s, "positionSide"@, match o.position_side { Some(x) => Some(x.text()), None => None });
    let s = put(s, "timeInForce"@, match o.time_in_force { Some(x) => Some(x.text()), None => None });
    let s = put(s, "quantity"@, opt_view(o.qty));
    let s = put(s, "reduceOnly"@, match o.reduce_only { Some(b) => Some(bool_text(b)), None => None });
    let s = put(s, "price"@, opt_view(o.price));
    let s = put(s, "stopPrice"@, opt_view(o.stop_price));
    let s = put(s, "activationPrice"@, opt_view(o.activation_price));
    let s = put(s, "callbackRate"@, opt_view(o.callback_rate));
    let s = put(s, "workingType"@, match o.working_type { Some(x) => Some(x.text()), None => None });
    let s = put(s, "priceProtect"@, match o.price_protect { Some(x) => Some(upper_of(x@)), None => None });
    let s = put(s, "newOrderRespType"@, match o.response_type { Some(x) => Some(x.text()), None => None });
    s
}

/// Orders on coin-margined (inverse) contracts are named by the market
/// `inverse`; any other market means USD-margined contracts.
pub open spec fn is_inverse(market: Seq<char>) -> bool {
    market == "inverse"@
}

/// The order endpoint for a plain or conditional order on either market.
pub open spec fn order_api(plain: bool, inverse: bool) -> Api {
    if plain {
        if inverse { Api::PortfolioMargin(PortfolioMargin::OrderCM) } else { Api::PortfolioMargin(PortfolioMargin::OrderUM) }
    } else {
        if inverse {
            Api::PortfolioMargin(PortfolioMargin::ConditionalOrderCM)
        } else {
            Api::PortfolioMargin(PortfolioMargin::ConditionalOrderUM)
        }
    }
}

fn order_endpoint(plain: bool, inverse: bool) -> (r: Api)
    ensures
        r == order_api(plain, inverse),
{
    if plain {
        if inverse { Api::PortfolioMargin(PortfolioMargin::OrderCM) } else { Api::PortfolioMargin(PortfolioMargin::OrderUM) }
    } else {
        if inverse {
            Api::PortfolioMargin(PortfolioMargin::ConditionalOrderCM)
        } else {
            Api::PortfolioMargin(PortfolioMargin::ConditionalOrderUM)
        }
    }
}

/// An order type as the exchange reports it names a plain order.
pub open spec fn is_plain_text(order_type: Seq<char>) -> bool {
    order_type == "LIMIT"@ || order_type == "MARKET"@
}

/// The parameters that cancel an order by its client id.
pub open spec fn cancel_params(symbol: Seq<char>, order_type: Seq<char>, client_order_id: Seq<char>) -> Seq<ParamView> {
    if is_plain_text(order_type) {
        inserted(symbol_entries(symbol), "origClientOrderId"@, client_order_id)
    } else {
        inserted(symbol_entries(symbol), "newClientStrategyId"@, client_order_id)
    }
}

/// Which of two cancellations failed first, if any: the plain orders' error
/// comes before the conditional orders' one.
pub open spec fn both_outcome<E>(orders: Result<(), E>, conditional: Result<(), E>) -> Result<(), E> {
    match orders {
        Err(e) => Err(e),
        Ok(_) => conditional,
    }
}

/// Sets `key` to the text in `value`, if there is one.
fn put_text(p: &mut Parameters, key: &str, value: &Option<String>)
    requires
        old(p).wf(),
    ensures
        final(p)@ == put(old(p)@, key@, opt_view(*value)),
        final(p).wf(),
{
    if let Some(v) = value {
        p.insert(key, v.as_str());
    }
}

/// Signed requests to the portfolio-margin account endpoints.
#[derive(Clone, Debug)]
pub struct PortfolioMarginAccount {
    pub recv_window: u64,
}

impl PortfolioMarginAccount {
    /// The parameters of a new order.
    pub fn build_order(&self, order: OrderRequest) -> (r: Parameters)
        ensures
            r@ == order_params(order),
            r.wf(),
    {
        let mut p = Parameters::with_symbol(order.symbol.as_str());
        let side = order.side.to_string();
        p.insert("side", side.as_str());
        let ot = order.order_type.to_string();
        if order.order_type.is_plain() {
            p.insert("type", ot.as_str());
            p.insert("newClientOrderId", order.new_client_order_id.as_str());
        } else {
            p.insert("strategyType", ot.as_str());
            p.insert("newClientStrategyId", order.new_client_order_id.as_str());
        }
        let t = match order.position_side {
            Some(x) => Some(x.to_string()),
            None => None,
        };
        put_text(&mut p, "positionSide", &t);
        let t = match order.time_in_force {
            Some(x) => Some(x.to_string()),
            None => None,
        };
        put_text(&mut p, "timeInForce", &t);
        put_text(&mut p, "quantity", &order.qty);
        let t = match order.reduce_only {
            Some(b) => Some(owned(if b { "TRUE" } else { "FALSE" })),
            None => None,
        };
        put_text(&mut p, "reduceOnly", &t);
        put_text(&mut p, "price", &order.price);
        put_text(&mut p, "stopPrice", &order.stop_price);
        put_text(&mut p, "activationPrice", &order.activation_price);
        put_text(&mut p, "callbackRate", &order.callback_rate);
        let t = match order.working_type {
            Some(x) => Some(x.to_string()),
            None => None,
        };
        put_text(&mut p, "workingType", &t);
        let t = match &order.price_protect {
            Some(x) => Some(uppercase(x.as_str())),
            None => None,
        };
        put_text(&mut p, "priceProtect", &t);
        let t = match order.response_type {
            Some(x) => Some(x.to_string()),
            None => None,
        };
        put_text(&mut p, "newOrderRespType", &t);
        p
    }

    /// Cancels an order by the client id it was placed with, given the type
    /// the exchange reports for it (`LIMIT` and `MARKET` are plain orders,
    /// others conditional).
    pub fn cancel_order_with_client_id(
        &self,
        symbol: &str,
        order_type: &str,
        client_order_id: &str,
        market: &str,
        timestamp: u64,
    ) -> (r: Request)
        ensures
            r.method == Method::Delete,
            r.signed,
            r.api == order_api(is_plain_text(order_type@), is_inverse(market@)),
            r.query@ == signed_query(
                cancel_params(symbol@, order_type@, client_order_id@),
                self.recv_window,
                timestamp,
            ),
    {
        let plain = text_eq(order_type, "LIMIT") || text_eq(order_type, "MARKET");
        let mut p = Parameters::with_symbol(symbol);
        if plain {
            p.insert("origClientOrderId", client_order_id);
        } else {
            p.insert("newClientStrategyId", client_order_id);
        }
        let api = order_endpoint(plain, text_eq(market, "inverse"));
        Request { method: Method::Delete, api, query: p.build_signed_request(self.recv_window, timestamp), signed: true }
    }

    /// Places an order on the market named by `market`.
    pub fn post_order(&self, order_request: OrderRequest, market: &str, timestamp: u64) -> (r: Request)
        ensures
            r.method == Method::Post,
            r.signed,
            r.api == order_api(order_request.order_type.spec_is_plain(), is_inverse(market@)),
            r.query@ == signed_query(order_params(order_request), self.recv_window, timestamp),
    {
        let plain = order_request.order_type.is_plain();
        let p = self.build_order(order_request);
        let api = order_endpoint(plain, text_eq(market, "inverse"));
        Request { method: Method::Post, api, query: p.build_signed_request(self.recv_window, timestamp), signed: true }
    }

    /// The positions held in `symbol` on the market named by `market`.
    pub fn get_position_information(&self, symbol: &str, market: &str, timestamp: u64) -> (r: Request)
        ensures
            r.method == Method::Get,
            r.signed,
            r.api == (if is_inverse(market@) {
                Api::PortfolioMargin(PortfolioMargin::PositionRiskCM)
            } else {
                Api::PortfolioMargin(PortfolioMargin::PositionRiskUM)
            }),
            r.query@ == signed_query(symbol_entries(symbol@), self.recv_window, timestamp),
    {
        let p = Parameters::with_symbol(symbol);
        let api = if text_eq(market, "inverse") {
            Api::PortfolioMargin(PortfolioMargin::PositionRiskCM)
        } else {
            Api::PortfolioMargin(PortfolioMargin::PositionRiskUM)
        };
        Request { method: Method::Get, api, query: p.build_signed_request(self.recv_window, timestamp), signed: true }
    }

    /// The account's summary.
    pub fn get_account_information(&self, timestamp: u64) -> (r: Request)
        ensures
            r.method == Method::Get,
            r.signed,
            r.api == Api::PortfolioMargin(PortfolioMargin::Account),
            r.query@ == signed_query(Seq::empty(), self.recv_window, timestamp),
    {
        let p = Parameters::new();
        Request {
            method: Method::Get,
            api: Api::PortfolioMargin(PortfolioMargin::Account),
            query: p.build_signed_request(self.recv_window, timestamp),
            signed: true,
        }
    }

    /// The account's balance in each asset.
    pub fn get_account_balance(&self, timestamp: u64) -> (r: Request)
        ensures
            r.method == Method::Get,
            r.signed,
            r.api == Api::PortfolioMargin(PortfolioMargin::Balance),
            r.query@ == signed_query(Seq::empty(), self.recv_window, timestamp),
    {
        let p = Parameters::new();
        Request {
            method: Method::Get,
            api: Api::PortfolioMargin(PortfolioMargin::Balance),
            query: p.build_signed_request(self.recv_window, timestamp),
            signed: true,
        }
    }

    /// Cancels every open order in `symbol`: the first request cancels the
    /// plain orders, the second the conditional ones, with the same query.
    pub fn cancel_all_open_orders(&self, symbol: &str, market: &str, timestamp: u64) -> (r: (
        Request,
        Request,
    ))
        ensures
            r.0.method == Method::Delete,
            r.1.method == Method::Delete,
            r.0.signed && r.1.signed,
            r.0.api == (if is_inverse(market@) {
                Api::PortfolioMargin(PortfolioMargin::CancelAllOpenOrdersCM)
            } else {
                Api::PortfolioMargin(PortfolioMargin::CancelAllOpenOrdersUM)
            }),
            r.1.api == (if is_inverse(market@) {
                Api::PortfolioMargin(PortfolioMargin::CancelAllConditionalOpenOrdersCM)
            } else {
                Api::PortfolioMargin(PortfolioMargin::CancelAllConditionalOpenOrdersUM)
            }),
            r.0.query@ == signed_query(symbol_entries(symbol@), self.recv_window, timestamp),
            r.1.query@ == r.0.query@,
    {
        let p = Parameters::with_symbol(symbol);
        let q = p.build_signed_request(self.recv_window, timestamp);
        let inverse = text_eq(market, "inverse");
        let (a, b) = if inverse {
            (
                Api::PortfolioMargin(PortfolioMargin::CancelAllOpenOrdersCM),
                Api::PortfolioMargin(PortfolioMargin::CancelAllConditionalOpenOrdersCM),
            )
        } else {
            (
                Api::PortfolioMargin(PortfolioMargin::CancelAllOpenOrdersUM),
                Api::PortfolioMargin(PortfolioMargin::CancelAllConditionalOpenOrdersUM),
            )
        };
        let q2 = q.clone();
        (
            Request { method: Method::Delete, api: a, query: q, signed: true },
            Request { method: Method::Delete, api: b, query: q2, signed: true },
        )
    }

    /// The result of cancelling every open order, from the outcomes of the
    /// two requests of `cancel_all_open_orders`.
    pub fn cancel_all_outcome<E>(orders: Result<(), E>, conditional: Result<(), E>) -> (r: Result<(), E>)
        ensures
            r == both_outcome(orders, conditional),
    {
        match orders {
            Err(e) => Err(e),
            Ok(_) => conditional,
        }
    }

    /// The open orders in `symbol`. On the inverse market the plain orders
    /// are asked for by symbol and then all conditional orders with no
    /// parameters; on the other market only the plain orders are asked for.
    /// The answers are joined in the order of the requests.
    pub fn get_all_open_orders(&self, symbol: &str, market: &str, timestamp: u64) -> (r: Vec<Request>)
        ensures
            r.len() == (if is_inverse(market@) { 2int } else { 1int }),
            r[0].method == Method::Get,
            r[0].signed,
            r[0].api == (if is_inverse(market@) {
                Api::PortfolioMargin(PortfolioMargin::OpenOrdersCM)
            } else {
                Api::PortfolioMargin(PortfolioMargin::OpenOrdersUM)
            }),
            r[0].query@ == signed_query(symbol_entries(symbol@), self.recv_window, timestamp),
            is_inverse(market@) ==> r[1].method == Method::Get && r[1].signed && r[1].api
                == Api::PortfolioMargin(PortfolioMargin::ConditionalOpenOrdersCM) && r[1].query@
                == signed_query(Seq::empty(), self.recv_window, timestamp),
    {
        let p = Parameters::with_symbol(symbol);
        let q = p.build_signed_request(self.recv_window, timestamp);
        let mut r: Vec<Request> = Vec::new();
        if text_eq(market, "inverse") {
            r.push(Request { method: Method::Get, api: Api::PortfolioMargin(PortfolioMargin::OpenOrdersCM), query: q, signed: true });
            let e = Parameters::new();
            let q2 = e.build_signed_request(self.recv_window, timestamp);
            r.push(Request {
                method: Method::Get,
                api: Api::PortfolioMargin(PortfolioMargin::ConditionalOpenOrdersCM),
                query: q2,
                signed: true,
            });
        } else {
            r.push(Request { method: Method::Get, api: Api::PortfolioMargin(PortfolioMargin::OpenOrdersUM), query: q, signed: true });
        }
        r
    }
}

} // verus!
