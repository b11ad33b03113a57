//! Request URLs: calendar dates, the enumerated path components, and one
//! builder per endpoint, each pinned to the exact characters it produces.

use vstd::prelude::*;
use vstd::string::{StrSliceExecFns, StringExecFns};
use crate::params::{make_params, spec_opt_query, ParamMap};
use crate::text::{spec_dec_digits, spec_dec_digits_signed, spec_digit, i64_to_string, u64_to_string};

verus! {

/// A calendar date, as the vendor's date-stamped endpoints take it.
#[derive(Debug, Clone, Copy, PartialEq, Eq, Structural)]
pub struct Date {
    /// The year, four digits.
    pub year: u16,
    /// The month, one through twelve.
    pub month: u8,
    /// The day of the month.
    pub day: u8,
}

/// True for leap years.
pub open spec fn spec_is_leap_year(y: int) -> bool {
    y % 4 == 0 && (y % 100 != 0 || y % 400 == 0)
}

/// How many days the month holds.
pub open spec fn spec_days_in_month(y: int, m: int) -> int
    recommends
        1 <= m <= 12,
{
    if m == 2 {
        if spec_is_leap_year(y) {
            29
        } else {
            28
        }
    } else if m == 4 || m == 6 || m == 9 || m == 11 {
        30
    } else {
        31
    }
}

impl Date {
    /// The date's invariant: a four-digit year and a real calendar day.
    pub open spec fn well_formed(&self) -> bool {
        &&& 1 <= self.year <= 9999
        &&& 1 <= self.month <= 12
        &&& 1 <= self.day <= spec_days_in_month(self.year as int, self.month as int)
    }

    /// Builds a date, checking that the day exists in the calendar.
    pub fn new(year: u16, month: u8, day: u8) -> (r: Option<Date>)
        ensures
            r is Some <==> ({
                &&& 1 <= year <= 9999
                &&& 1 <= month <= 12
                &&& 1 <= day <= spec_days_in_month(year as int, month as int)
            }),
            r matches Some(d) ==> d == (Date { year, month, day }) && d.well_formed(),
    {
        let d = Date { year, month, day };
        if d.is_well_formed() {
            Some(d)
        } else {
            None
        }
    }

    /// Whether the fields form a real calendar day, for a caller that built
    /// the value without the checked constructor.
    pub fn is_well_formed(&self) -> (r: bool)
        ensures
            r == self.well_formed(),
    {
        if self.year < 1 || self.year > 9999 || self.month < 1 || self.month > 12 {
            return false;
        }
        let dim: u8 = if self.month == 2 {
            if self.year % 4 == 0 && (self.year % 100 != 0 || self.year % 400 == 0) {
                29
            } else {
                28
            }
        } else if self.month == 4 || self.month == 6 || self.month == 9 || self.month == 11 {
            30
        } else {
            31
        };
        1 <= self.day && self.day <= dim
    }

    /// The ten characters the date formats to: `YYYY-MM-DD`.
    pub open spec fn spec_chars(&self) -> Seq<char> {
        seq![
            spec_digit(self.year as int / 1000),
            spec_digit(self.year as int / 100 % 10),
            spec_digit(self.year as int / 10 % 10),
            spec_digit(self.year as int % 10),
            '-',
            spec_digit(self.month as int / 10),
            spec_digit(self.month as int % 10),
            '-',
            spec_digit(self.day as int / 10),
            spec_digit(self.day as int % 10),
        ]
    }

    /// Formats the date as `YYYY-MM-DD`, zero-padded.
    pub fn format(&self) -> (r: String)
        requires
            self.well_formed(),
        ensures
            r@ == self.spec_chars(),
    {
        proof {
            reveal_strlit("-");
        }
        let y = self.year as u64;
        let m = self.month as u64;
        let d = self.day as u64;
        let mut s = String::new();
        s.append(digit_of(y / 1000).as_str());
        s.append(digit_of(y / 100 % 10).as_str());
        s.append(digit_of(y / 10 % 10).as_str());
        s.append(digit_of(y % 10).as_str());
        s.append("-");
        s.append(digit_of(m / 10).as_str());
        s.append(digit_of(m % 10).as_str());
        s.append("-");
        s.append(digit_of(d / 10).as_str());
        s.append(digit_of(d % 10).as_str());
        proof {
            assert(s@ =~= self.spec_chars());
        }
        s
    }
}

/// One decimal digit, rendered.
fn digit_of(d: u64) -> (r: String)
    requires
        d <= 9,
    ensures
        r@ == seq![spec_digit(d as int)],
{
    u64_to_string(d)
}

/// The granularity of one aggregate bar.
#[derive(Debug, Clone, Copy, PartialEq, Eq, Structural)]
pub enum Timespan {
    Minute,
    Hour,
    Day,
    Week,
    Month,
    Quarter,
    Year,
}

impl Timespan {
    /// The lower-case name the URL path carries.
    pub open spec fn spec_str(&self) -> Seq<char> {
        match self {
            Timespan::Minute => "minute"@,
            Timespan::Hour => "hour"@,
            Timespan::Day => "day"@,
            Timespan::Week => "week"@,
            Timespan::Month => "month"@,
            Timespan::Quarter => "quarter"@,
            Timespan::Year => "year"@,
        }
    }

    /// The lower-case name the URL path carries.
    pub fn as_str(&self) -> (r: &'static str)
        ensures
            r@ == self.spec_str(),
    {
        match self {
            Timespan::Minute => "minute",
            Timespan::Hour => "hour",
            Timespan::Day => "day",
            Timespan::Week => "week",
            Timespan::Month => "month",
            Timespan::Quarter => "quarter",
            Timespan::Year => "year",
        }
    }
}

/// The locale segment of the grouped-daily endpoint.
#[derive(Debug, Clone, Copy, PartialEq, Eq, Structural)]
pub enum Locale {
    Global,
    US,
    GB,
    CA,
    NL,
    GR,
    SP,
    DE,
    BE,
    DK,
    FI,
    IE,
    PT,
    IN,
    MX,
    FR,
    CN,
    CH,
    SE,
}

impl Locale {
    /// The lower-case name the URL path carries.
    pub open spec fn spec_str(&self) -> Seq<char> {
        match self {
            Locale::Global => "global"@,
            Locale::US => "us"@,
            Locale::GB => "gb"@,
            Locale::CA => "ca"@,
            Locale::NL => "nl"@,
            Locale::GR => "gr"@,
            Locale::SP => "sp"@,
            Locale::DE => "de"@,
            Locale::BE => "be"@,
            Locale::DK => "dk"@,
            Locale::FI => "fi"@,
            Locale::IE => "ie"@,
            Locale::PT => "pt"@,
            Locale::IN => "in"@,
            Locale::MX => "mx"@,
            Locale::FR => "fr"@,
            Locale::CN => "cn"@,
            Locale::CH => "ch"@,
            Locale::SE => "se"@,
        }
    }

    /// The lower-case name the URL path carries.
    pub fn as_str(&self) -> (r: &'static str)
        ensures
            r@ == self.spec_str(),
    {
        match self {
            Locale::Global => "global",
            Locale::US => "us",
            Locale::GB => "gb",
            Locale::CA => "ca",
            Locale::NL => "nl",
            Locale::GR => "gr",
            Locale::SP => "sp",
            Locale::DE => "de",
            Locale::BE => "be",
            Locale::DK => "dk",
            Locale::FI => "fi",
            Locale::IE => "ie",
            Locale::PT => "pt",
            Locale::IN => "in",
            Locale::MX => "mx",
            Locale::FR => "fr",
            Locale::CN => "cn",
            Locale::CH => "ch",
            Locale::SE => "se",
        }
    }
}

/// The market segment of the grouped-daily endpoint.
#[derive(Debug, Clone, Copy, PartialEq, Eq, Structural)]
pub enum Market {
    Stocks,
    Crypto,
    Bonds,
    MF,
    MMF,
    Indices,
    FX,
}

impl Market {
    /// The lower-case name the URL path carries.
    pub open spec fn spec_str(&self) -> Seq<char> {
        match self {
            Market::Stocks => "stocks"@,
            Market::Crypto => "crypto"@,
            Market::Bonds => "bonds"@,
            Market::MF => "mf"@,
            Market::MMF => "mmf"@,
            Market::Indices => "indices"@,
            Market::FX => "fx"@,
        }
    }

    /// The lower-case name the URL path carries.
    pub fn as_str(&self) -> (r: &'static str)
        ensures
            r@ == self.spec_str(),
    {
        match self {
            Market::Stocks => "stocks",
            Market::Crypto => "crypto",
            Market::Bonds => "bonds",
            Market::MF => "mf",
            Market::MMF => "mmf",
            Market::Indices => "indices",
            Market::FX => "fx",
        }
    }
}

/// An equity symbol carries no venue separator; a symbol with a colon names
/// another instrument class.
pub fn is_equity_symbol(symbol: &str) -> (r: bool)
    ensures
        r == !symbol@.contains(':'),
{
    let n = symbol.unicode_len();
    let mut i: usize = 0;
    while i < n
        invariant
            n == symbol@.len(),
            i <= n,
            forall|j: int| 0 <= j < i ==> symbol@[j] != ':',
        decreases n - i,
    {
        if symbol.get_char(i) == ':' {
            proof {
                assert(symbol@.contains(':'));
            }
            return false;
        }
        i = i + 1;
    }
    proof {
        assert(!symbol@.contains(':'));
    }
    true
}

/// The URL of the per-symbol trades endpoint.
pub fn trades_url(api_uri: &str, symbol: &str, params: Option<&ParamMap>) -> (r: String)
    ensures
        r@ == api_uri@ + "/v3/trades/"@ + symbol@ + spec_opt_query(params),
{
    let mut s = api_uri.to_owned();
    s.append("/v3/trades/");
    s.append(symbol);
    s.append(make_params(params).as_str());
    s
}

/// The URL of the per-symbol quotes endpoint.
pub fn quotes_url(api_uri: &str, symbol: &str, params: Option<&ParamMap>) -> (r: String)
    ensures
        r@ == api_uri@ + "/v3/quotes/"@ + symbol@ + spec_opt_query(params),
{
    let mut s = api_uri.to_owned();
    s.append("/v3/quotes/");
    s.append(symbol);
    s.append(make_params(params).as_str());
    s
}

/// The URL of the per-symbol aggregate endpoint.
pub fn aggs_url(
    api_uri: &str,
    symbol: &str,
    multiplier: i64,
    timespan: Timespan,
    from: &Date,
    to: &Date,
    params: Option<&ParamMap>,
) -> (r: String)
    requires
        from.well_formed(),
        to.well_formed(),
    ensures
        r@ == api_uri@ + "/v2/aggs/ticker/"@ + symbol@ + "/range/"@ + spec_dec_digits_signed(
            multiplier as int,
        ) + "/"@ + timespan.spec_str() + "/"@ + from.spec_chars() + "/"@ + to.spec_chars()
            + spec_opt_query(params),
{
    let mut s = api_uri.to_owned();
    s.append("/v2/aggs/ticker/");
    s.append(symbol);
    s.append("/range/");
    s.append(i64_to_string(multiplier).as_str());
    s.append("/");
    s.append(timespan.as_str());
    s.append("/");
    s.append(from.format().as_str());
    s.append("/");
    s.append(to.format().as_str());
    s.append(make_params(params).as_str());
    s
}

/// The URL of the previous-close endpoint.
pub fn prev_url(api_uri: &str, symbol: &str) -> (r: String)
    ensures
        r@ == api_uri@ + "/v2/aggs/ticker/"@ + symbol@ + "/prev"@,
{
    let mut s = api_uri.to_owned();
    s.append("/v2/aggs/ticker/");
    s.append(symbol);
    s.append("/prev");
    s
}

/// The URL of the grouped-daily endpoint.
pub fn grouped_url(
    api_uri: &str,
    locale: Locale,
    market: Market,
    date: &str,
    params: Option<&ParamMap>,
) -> (r: String)
    ensures
        r@ == api_uri@ + "/v2/aggs/grouped/locale/"@ + locale.spec_str() + "/market/"@
            + market.spec_str() + "/"@ + date@ + spec_opt_query(params),
{
    let mut s = api_uri.to_owned();
    s.append("/v2/aggs/grouped/locale/");
    s.append(locale.as_str());
    s.append("/market/");
    s.append(market.as_str());
    s.append("/");
    s.append(date);
    s.append(make_params(params).as_str());
    s
}

/// The URL of the ticker listing endpoint.
pub fn tickers_url(api_uri: &str, params: Option<&ParamMap>) -> (r: String)
    ensures
        r@ == api_uri@ + "/v3/reference/tickers"@ + spec_opt_query(params),
{
    let mut s = api_uri.to_owned();
    s.append("/v3/reference/tickers");
    s.append(make_params(params).as_str());
    s
}

/// The URL of the ticker details endpoint.
pub fn ticker_details_url(api_uri: &str, ticker: &str, params: Option<&ParamMap>) -> (r: String)
    ensures
        r@ == api_uri@ + "/v3/reference/tickers/"@ + ticker@ + spec_opt_query(params),
{
    let mut s = api_uri.to_owned();
    s.append("/v3/reference/tickers/");
    s.append(ticker);
    s.append(make_params(params).as_str());
    s
}

/// The URL of the dividends endpoint.
pub fn dividends_url(api_uri: &str, symbol: &str) -> (r: String)
    ensures
        r@ == api_uri@ + "/v2/reference/dividends/"@ + symbol@,
{
    let mut s = api_uri.to_owned();
    s.append("/v2/reference/dividends/");
    s.append(symbol);
    s
}

/// The URL of the splits endpoint.
pub fn splits_url(api_uri: &str, symbol: &str) -> (r: String)
    ensures
        r@ == api_uri@ + "/v2/reference/splits/"@ + symbol@,
{
    let mut s = api_uri.to_owned();
    s.append("/v2/reference/splits/");
    s.append(symbol);
    s
}

/// The URL of the financials endpoint, which authenticates through a query
/// parameter rather than a header.
pub fn financials_url(api_uri: &str, symbol: &str, key: &str) -> (r: String)
    ensures
        r@ == api_uri@ + "/v2/reference/financials/"@ + symbol@ + "?apikey="@ + key@,
{
    let mut s = api_uri.to_owned();
    s.append("/v2/reference/financials/");
    s.append(symbol);
    s.append("?apikey=");
    s.append(key);
    s
}

/// The URL of the locales endpoint.
pub fn locales_url(api_uri: &str) -> (r: String)
    ensures
        r@ == api_uri@ + "/v2/reference/locales"@,
{
    let mut s = api_uri.to_owned();
    s.append("/v2/reference/locales");
    s
}

/// The URL of the markets endpoint.
pub fn markets_url(api_uri: &str) -> (r: String)
    ensures
        r@ == api_uri@ + "/v2/reference/markets"@,
{
    let mut s = api_uri.to_owned();
    s.append("/v2/reference/markets");
    s
}

/// The URL of the ticker types endpoint.
pub fn types_url(api_uri: &str) -> (r: String)
    ensures
        r@ == api_uri@ + "/v2/reference/types"@,
{
    let mut s = api_uri.to_owned();
    s.append("/v2/reference/types");
    s
}

/// The URL of the current market status endpoint.
pub fn market_status_now_url(api_uri: &str) -> (r: String)
    ensures
        r@ == api_uri@ + "/v1/marketstatus/now"@,
{
    let mut s = api_uri.to_owned();
    s.append("/v1/marketstatus/now");
    s
}

/// The URL of the upcoming market holidays endpoint.
pub fn market_status_upcoming_url(api_uri: &str) -> (r: String)
    ensures
        r@ == api_uri@ + "/v1/marketstatus/upcoming"@,
{
    let mut s = api_uri.to_owned();
    s.append("/v1/marketstatus/upcoming");
    s
}

} // verus!
