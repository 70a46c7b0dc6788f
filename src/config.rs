//! Base addresses of the endpoint families and the receive window.

use vstd::prelude::*;
use crate::text::owned;

verus! {

/// Base URLs of each endpoint family and the receive window (milliseconds)
/// that signed requests carry.
#[derive(Clone, Debug)]
pub struct Config {
    pub rest_api_endpoint: String,
    pub ws_endpoint: String,
    pub portfolio_margin_rest_api_endpoint: String,
    pub futures_rest_api_endpoint: String,
    pub futures_cm_rest_api_endpoint: String,
    pub futures_ws_endpoint: String,
    pub recv_window: u64,
}

/// A configuration as characters.
pub struct ConfigView {
    pub rest_api_endpoint: Seq<char>,
    pub ws_endpoint: Seq<char>,
    pub portfolio_margin_rest_api_endpoint: Seq<char>,
    pub futures_rest_api_endpoint: Seq<char>,
    pub futures_cm_rest_api_endpoint: Seq<char>,
    pub futures_ws_endpoint: Seq<char>,
    pub recv_window: u64,
}

impl View for Config {
    type V = ConfigView;

    open spec fn view(&self) -> ConfigView {
        ConfigView {
            rest_api_endpoint: self.rest_api_endpoint@,
            ws_endpoint: self.ws_endpoint@,
            portfolio_margin_rest_api_endpoint: self.portfolio_margin_rest_api_endpoint@,
            futures_rest_api_endpoint: self.futures_rest_api_endpoint@,
            futures_cm_rest_api_endpoint: self.futures_cm_rest_api_endpoint@,
            futures_ws_endpoint: self.futures_ws_endpoint@,
            recv_window: self.recv_window,
        }
    }
}

/// The production addresses, with a receive window of 5000 ms.
pub open spec fn default_config() -> ConfigView {
    ConfigView {
        rest_api_endpoint: "https://api.binance.com"@,
        ws_endpoint: "wss://stream.binance.com/ws"@,
        portfolio_margin_rest_api_endpoint: "https://papi.binance.com"@,
        futures_rest_api_endpoint: "https://fapi.binance.com"@,
        futures_cm_rest_api_endpoint: "https://dapi.binance.com"@,
        futures_ws_endpoint: "wss://fstream.binance.com/ws"@,
        recv_window: 5000,
    }
}

/// The test-network addresses; the receive window stays at its default.
pub open spec fn testnet_config() -> ConfigView {
    ConfigView {
        rest_api_endpoint: "https://testnet.binance.vision"@,
        ws_endpoint: "wss://testnet.binance.vision/ws"@,
        portfolio_margin_rest_api_endpoint: "https://testnet.binance.vision"@,
        futures_rest_api_endpoint: "https://testnet.binancefuture.com"@,
        futures_cm_rest_api_endpoint: "https://testnet.binancefuture.com"@,
        futures_ws_endpoint: "https://testnet.binancefuture.com/ws"@,
        ..default_config()
    }
}

impl Default for Config {
    fn default() -> (r: Config)
        ensures
            r@ == default_config(),
    {
        Config {
            rest_api_endpoint: owned("https://api.binance.com"),
            ws_endpoint: owned("wss://stream.binance.com/ws"),
            portfolio_margin_rest_api_endpoint: owned("https://papi.binance.com"),
            futures_rest_api_endpoint: owned("https://fapi.binance.com"),
            futures_cm_rest_api_endpoint: owned("https://dapi.binance.com"),
            futures_ws_endpoint: owned("wss://fstream.binance.com/ws"),
            recv_window: 5000,
        }
    }
}

impl Config {
    /// The test-network configuration.
    pub fn testnet() -> (r: Config)
        ensures
            r@ == testnet_config(),
    {
        Config::default()
            .set_rest_api_endpoint("https://testnet.binance.vision")
            .set_ws_endpoint("wss://testnet.binance.vision/ws")
            .set_portfolio_margin_rest_api_endpoint("https://testnet.binance.vision")
            .set_futures_rest_api_endpoint("https://testnet.binancefuture.com")
            .set_futures_cm_rest_api_endpoint("https://testnet.binancefuture.com")
            .set_futures_ws_endpoint("https://testnet.binancefuture.com/ws")
    }

    /// Replaces the `rest_api_endpoint` address.
    pub fn set_rest_api_endpoint(self, rest_api_endpoint: &str) -> (r: Config)
        ensures
            r@ == (ConfigView { rest_api_endpoint: rest_api_endpoint@, ..self@ }),
    {
        let mut c = self;
        c.rest_api_endpoint = owned(rest_api_endpoint);
        c
    }

    /// Replaces the `ws_endpoint` address.
    pub fn set_ws_endpoint(self, ws_endpoint: &str) -> (r: Config)
        ensures
            r@ == (ConfigView { ws_endpoint: ws_endpoint@, ..self@ }),
    {
        let mut c = self;
        c.ws_endpoint = owned(ws_endpoint);
        c
    }

    /// Replaces the `portfolio_margin_rest_api_endpoint` address.
    pub fn set_portfolio_margin_rest_api_endpoint(self, portfolio_margin_rest_api_endpoint: &str) -> (r: Config)
        ensures
            r@ == (ConfigView { portfolio_margin_rest_api_endpoint: portfolio_margin_rest_api_endpoint@, ..self@ }),
    {
        let mut c = self;
        c.portfolio_margin_rest_api_endpoint = owned(portfolio_margin_rest_api_endpoint);
        c
    }

    /// Replaces the `futures_rest_api_endpoint` address.
    pub fn set_futures_rest_api_endpoint(self, futures_rest_api_endpoint: &str) -> (r: Config)
        ensures
            r@ == (ConfigView { futures_rest_api_endpoint: futures_rest_api_endpoint@, ..self@ }),
    {
        let mut c = self;
        c.futures_rest_api_endpoint = owned(futures_rest_api_endpoint);
        c
    }

    /// Replaces the `futures_cm_rest_api_endpoint` address.
    pub fn set_futures_cm_rest_api_endpoint(self, futures_cm_rest_api_endpoint: &str) -> (r: Config)
        ensures
            r@ == (ConfigView { futures_cm_rest_api_endpoint: futures_cm_rest_api_endpoint@, ..self@ }),
    {
        let mut c = self;
        c.futures_cm_rest_api_endpoint = owned(futures_cm_rest_api_endpoint);
        c
    }

    /// Replaces the `futures_ws_endpoint` address.
    pub fn set_futures_ws_endpoint(self, futures_ws_endpoint: &str) -> (r: Config)
        ensures
            r@ == (ConfigView { futures_ws_endpoint: futures_ws_endpoint@, ..self@ }),
    {
        let mut c = self;
        c.futures_ws_endpoint = owned(futures_ws_endpoint);
        c
    }

    /// Replaces the receive window.
    pub fn set_recv_window(self, recv_window: u64) -> (r: Config)
        ensures
            r@ == (ConfigView { recv_window, ..self@ }),
    {
        let mut c = self;
        c.recv_window = recv_window;
        c
    }
}

} // verus!
