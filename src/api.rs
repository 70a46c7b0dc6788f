//! Endpoints of the exchange and the requests sent to them.

use vstd::prelude::*;
use crate::text::{owned, concat};

verus! {

/// Portfolio-margin endpoints; `UM` ones serve USD-margined futures, `CM`
/// ones coin-margined futures.
#[derive(Clone, Copy, Debug, PartialEq, Eq, Structural)]
pub enum PortfolioMargin {
    OrderUM,
    OrderCM,
    ConditionalOrderUM,
    ConditionalOrderCM,
    PositionRiskUM,
    PositionRiskCM,
    Account,
    Balance,
    CancelAllOpenOrdersUM,
    CancelAllOpenOrdersCM,
    CancelAllConditionalOpenOrdersUM,
    CancelAllConditionalOpenOrdersCM,
    OpenOrdersUM,
    OpenOrdersCM,
    ConditionalOpenOrdersUM,
    ConditionalOpenOrdersCM,
}

/// Coin-margined futures endpoints.
#[derive(Clone, Copy, Debug, PartialEq, Eq, Structural)]
pub enum FuturesCM {
    Klines,
}

/// An endpoint of one of the API families.
#[derive(Clone, Copy, Debug, PartialEq, Eq, Structural)]
pub enum Api {
    PortfolioMargin(PortfolioMargin),
    FuturesCM(FuturesCM),
}

impl Api {
    /// The endpoint's path, relative to its family's base address.
    pub open spec fn path_spec(self) -> Seq<char> {
        match self {
            Api::PortfolioMargin(PortfolioMargin::OrderUM) => "/papi/v1/um/order"@,
            Api::PortfolioMargin(PortfolioMargin::OrderCM) => "/papi/v1/cm/order"@,
            Api::PortfolioMargin(PortfolioMargin::ConditionalOrderUM) => "/papi/v1/um/conditional/order"@,
            Api::PortfolioMargin(PortfolioMargin::ConditionalOrderCM) => "/papi/v1/cm/conditional/order"@,
            Api::PortfolioMargin(PortfolioMargin::PositionRiskUM) => "/papi/v1/um/positionRisk"@,
            Api::PortfolioMargin(PortfolioMargin::PositionRiskCM) => "/papi/v1/cm/positionRisk"@,
            Api::PortfolioMargin(PortfolioMargin::Account) => "/papi/v1/account"@,
            Api::PortfolioMargin(PortfolioMargin::Balance) => "/papi/v1/balance"@,
            Api::PortfolioMargin(PortfolioMargin::CancelAllOpenOrdersUM) => "/papi/v1/um/allOpenOrders"@,
            Api::PortfolioMargin(PortfolioMargin::CancelAllOpenOrdersCM) => "/papi/v1/cm/allOpenOrders"@,
            Api::PortfolioMargin(PortfolioMargin::CancelAllConditionalOpenOrdersUM) => "/papi/v1/um/conditional/allOpenOrders"@,
            Api::PortfolioMargin(PortfolioMargin::CancelAllConditionalOpenOrdersCM) => "/papi/v1/cm/conditional/allOpenOrders"@,
            Api::PortfolioMargin(PortfolioMargin::OpenOrdersUM) => "/papi/v1/um/openOrders"@,
            Api::PortfolioMargin(PortfolioMargin::OpenOrdersCM) => "/papi/v1/cm/openOrders"@,
            Api::PortfolioMargin(PortfolioMargin::ConditionalOpenOrdersUM) => "/papi/v1/um/conditional/openOrders"@,
            Api::PortfolioMargin(PortfolioMargin::ConditionalOpenOrdersCM) => "/papi/v1/cm/conditional/openOrders"@,
            Api::FuturesCM(FuturesCM::Klines) => "/dapi/v1/klines"@,
        }
    }

    pub fn path(&self) -> (r: String)
        ensures
            r@ == self.path_spec(),
    {
        match self {
            Api::PortfolioMargin(PortfolioMargin::OrderUM) => owned("/papi/v1/um/order"),
            Api::PortfolioMargin(PortfolioMargin::OrderCM) => owned("/papi/v1/cm/order"),
            Api::PortfolioMargin(PortfolioMargin::ConditionalOrderUM) => owned("/papi/v1/um/conditional/order"),
            Api::PortfolioMargin(PortfolioMargin::ConditionalOrderCM) => owned("/papi/v1/cm/conditional/order"),
            Api::PortfolioMargin(PortfolioMargin::PositionRiskUM) => owned("/papi/v1/um/positionRisk"),
            Api::PortfolioMargin(PortfolioMargin::PositionRiskCM) => owned("/papi/v1/cm/positionRisk"),
            Api::PortfolioMargin(PortfolioMargin::Account) => owned("/papi/v1/account"),
            Api::PortfolioMargin(PortfolioMargin::Balance) => owned("/papi/v1/balance"),
            Api::PortfolioMargin(PortfolioMargin::CancelAllOpenOrdersUM) => owned("/papi/v1/um/allOpenOrders"),
            Api::PortfolioMargin(PortfolioMargin::CancelAllOpenOrdersCM) => owned("/papi/v1/cm/allOpenOrders"),
            Api::PortfolioMargin(PortfolioMargin::CancelAllConditionalOpenOrdersUM) => owned("/papi/v1/um/conditional/allOpenOrders"),
            Api::PortfolioMargin(PortfolioMargin::CancelAllConditionalOpenOrdersCM) => owned("/papi/v1/cm/conditional/allOpenOrders"),
            Api::PortfolioMargin(PortfolioMargin::OpenOrdersUM) => owned("/papi/v1/um/openOrders"),
            Api::PortfolioMargin(PortfolioMargin::OpenOrdersCM) => owned("/papi/v1/cm/openOrders"),
            Api::PortfolioMargin(PortfolioMargin::ConditionalOpenOrdersUM) => owned("/papi/v1/um/conditional/openOrders"),
            Api::PortfolioMargin(PortfolioMargin::ConditionalOpenOrdersCM) => owned("/papi/v1/cm/conditional/openOrders"),
            Api::FuturesCM(FuturesCM::Klines) => owned("/dapi/v1/klines"),
        }
    }
}

/// The HTTP method of a request.
#[derive(Clone, Copy, Debug, PartialEq, Eq, Structural)]
pub enum Method {
    Get,
    Post,
    Delete,
}

/// A request ready for the transport: method, endpoint and query string.
/// A signed one still needs its signature over `query` appended.
#[derive(Clone, Debug)]
pub struct Request {
    pub method: Method,
    pub api: Api,
    pub query: String,
    pub signed: bool,
}

impl Request {
    /// The query with `signature` (the hex digest of the request's HMAC over
    /// `query`) appended as the last parameter.
    pub fn with_signature(&self, signature: &str) -> (r: String)
        ensures
            r@ == self.query@ + "&signature="@ + signature@,
    {
        let mut r = concat(self.query.as_str(), "&signature=");
        r.append(signature);
        r
    }
}

} // verus!
