//! The plain response shapes of the endpoints whose payloads the library
//! reads as-is: market status, reference listings, and ticker metadata.
//! The boundary that performs the I/O builds these from decoded JSON and
//! hands them in as values.

use vstd::prelude::*;
use std::collections::HashMap;

verus! {

/// Per-exchange status strings of the current market session.
#[derive(Debug, Clone)]
pub struct ExchangeStatusResponse {
    pub nyse: String,
    pub nasdaq: String,
    pub otc: String,
}

/// Per-currency-market status strings of the current session.
#[derive(Debug, Clone)]
pub struct CurrencyStatusResponse {
    pub fx: String,
    pub crypto: String,
}

/// The current overall market status.
#[derive(Debug, Clone)]
pub struct MarketStatusNowResponse {
    pub market: String,
    pub server_time: String,
    pub exchanges: ExchangeStatusResponse,
    pub currencies: CurrencyStatusResponse,
}

/// One upcoming market holiday.
#[derive(Debug, Clone)]
pub struct MarketHolidayResponse {
    pub exchange: String,
    pub name: String,
    pub date: String,
    pub status: String,
    pub open: Option<String>,
    pub close: Option<String>,
}

/// One locale the vendor serves.
#[derive(Debug, Clone)]
pub struct Locale {
    pub locale: String,
    pub name: String,
}

/// The locale listing.
#[derive(Debug, Clone)]
pub struct LocalesResponse {
    pub results: Vec<Locale>,
    pub status: String,
}

/// One market the vendor serves.
#[derive(Debug, Clone)]
pub struct Market {
    pub market: String,
    pub desc: String,
}

/// The market listing.
#[derive(Debug, Clone)]
pub struct MarketsResponse {
    pub results: Vec<Market>,
    pub status: String,
}

/// The security-type code tables.
#[derive(Debug, Clone)]
pub struct Types {
    pub types: HashMap<String, String>,
    pub index_types: HashMap<String, String>,
}

/// The security-type listing.
#[derive(Debug, Clone)]
pub struct TypesResponse {
    pub results: Types,
    pub status: String,
}

/// One entry of the ticker listing.
#[derive(Debug, Clone)]
pub struct Ticker {
    pub symbol: String,
    pub name: String,
    pub market: String,
    pub locale: String,
    pub primary_exchange: Option<String>,
    pub ticker_type: Option<String>,
    pub active: bool,
    pub currency_name: Option<String>,
    pub cik: Option<String>,
    pub composite_figi: Option<String>,
    pub share_class_figi: Option<String>,
    pub delisted_utc: Option<String>,
}

/// A company's street address in the ticker details.
#[derive(Debug, Clone)]
pub struct Address {
    pub address1: Option<String>,
    pub address2: Option<String>,
    pub city: Option<String>,
    pub state: Option<String>,
    pub country: Option<String>,
    pub postal_code: Option<String>,
}

/// A company's brand assets in the ticker details.
#[derive(Debug, Clone)]
pub struct Branding {
    pub icon_url: Option<String>,
    pub logo_url: Option<String>,
}

} // verus!
