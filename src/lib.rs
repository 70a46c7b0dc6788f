//! Request construction for an exchange's REST endpoints: configuration,
//! ordered query parameters, signed query strings, endpoint selection and
//! the parsing of kline rows.

pub mod text;
pub mod params;
pub mod config;
pub mod api;
pub mod portfolio_margin;
pub mod futures_cm;
