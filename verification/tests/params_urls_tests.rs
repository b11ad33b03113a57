use polygon_fetch::error::FetchError;
use polygon_fetch::params::{make_params, AggsParams, GroupedParams, NBBOsParams, ParamMap, TickerDetailsParams, TickersParams, TradesParams};
use polygon_fetch::text::{i64_to_string, u64_to_string};
use polygon_fetch::urls;
use polygon_fetch::urls::{Date, Locale, Market, Timespan};

#[test]
fn numbers_render_in_decimal() {
    assert_eq!(u64_to_string(0), "0");
    assert_eq!(u64_to_string(50_000), "50000");
    assert_eq!(u64_to_string(u64::MAX), "18446744073709551615");
    assert_eq!(i64_to_string(-12), "-12");
    assert_eq!(i64_to_string(7), "7");
    assert_eq!(i64_to_string(i64::MIN), "-9223372036854775808");
}

#[test]
fn make_params_renders_pairs_in_first_set_order() {
    assert_eq!(make_params(None), "");
    let empty = ParamMap::new();
    assert_eq!(make_params(Some(&empty)), "");
    let p = TradesParams::new().timestamp("2004-01-02").limit(50_000);
    assert_eq!(
        make_params(Some(&p.params)),
        "?timestamp=2004-01-02&limit=50000"
    );
}

#[test]
fn make_params_lowercases_names_at_render() {
    let mut m = ParamMap::new();
    m.set("A", "1".to_string());
    assert_eq!(make_params(Some(&m)), "?a=1");
    let mut m = ParamMap::new();
    m.set("Timestamp_GTE", "5".to_string());
    m.set("miXed9-Z", "v".to_string());
    assert_eq!(make_params(Some(&m)), "?timestamp_gte=5&mixed9-z=v");
}

#[test]
fn setting_a_present_name_replaces_its_value_in_place() {
    let mut m = ParamMap::new();
    m.set("order", "asc".to_string());
    m.set("limit", "10".to_string());
    m.set("order", "desc".to_string());
    assert_eq!(make_params(Some(&m)), "?order=desc&limit=10");
}

#[test]
fn builders_store_their_parameter_names() {
    let p = NBBOsParams::new()
        .timestamp("2005-01-03")
        .timestamp_lt("a")
        .timestamp_lte("b")
        .timestamp_gt("c")
        .timestamp_gte("d")
        .order("asc")
        .reverse(true)
        .limit(500)
        .cursor("tok");
    assert_eq!(
        make_params(Some(&p.params)),
        "?timestamp=2005-01-03&timestamp_lt=a&timestamp_lte=b&timestamp_gt=c&timestamp_gte=d&order=asc&reverse=true&limit=500&cursor=tok"
    );
    let p = TickersParams::new()
        .ticker("AAPL")
        .security_type("CS")
        .market("stocks")
        .exchange("XNAS")
        .cusip("c")
        .date("2004-01-02")
        .active(false)
        .sort("ticker")
        .order("asc")
        .limit(1000)
        .cursor("t2");
    assert_eq!(
        make_params(Some(&p.params)),
        "?ticker=AAPL&type=CS&market=stocks&exchange=XNAS&cusip=c&date=2004-01-02&active=false&sort=ticker&order=asc&limit=1000&cursor=t2"
    );
    let p = AggsParams::new().unadjusted(true).sort("asc").limit(-1);
    assert_eq!(make_params(Some(&p.params)), "?unadjusted=true&sort=asc&limit=-1");
    let p = GroupedParams::new().unadjusted(true);
    assert_eq!(make_params(Some(&p.params)), "?unadjusted=true");
    let p = TickerDetailsParams::new().date("2004-01-02");
    assert_eq!(make_params(Some(&p.params)), "?date=2004-01-02");
}

#[test]
fn dates_validate_the_calendar() {
    assert!(Date::new(2020, 2, 29).is_some());
    assert!(Date::new(1900, 2, 29).is_none());
    assert!(Date::new(2000, 2, 29).is_some());
    assert!(Date::new(2021, 2, 29).is_none());
    assert!(Date::new(2021, 4, 31).is_none());
    assert!(Date::new(2021, 4, 30).is_some());
    assert!(Date::new(2021, 13, 1).is_none());
    assert!(Date::new(0, 1, 1).is_none());
    assert!(Date::new(2021, 1, 0).is_none());
}

#[test]
fn dates_format_zero_padded() {
    let d = Date::new(987, 3, 5).unwrap();
    assert_eq!(d.format(), "0987-03-05");
    let d = Date::new(2020, 11, 25).unwrap();
    assert_eq!(d.format(), "2020-11-25");
}

#[test]
fn path_enums_render_lower_case() {
    assert_eq!(Timespan::Minute.as_str(), "minute");
    assert_eq!(Timespan::Quarter.as_str(), "quarter");
    assert_eq!(Locale::US.as_str(), "us");
    assert_eq!(Locale::Global.as_str(), "global");
    assert_eq!(Market::Stocks.as_str(), "stocks");
    assert_eq!(Market::MMF.as_str(), "mmf");
}

#[test]
fn urls_assemble_exactly() {
    let api = "https://api.example";
    assert_eq!(
        urls::trades_url(api, "AAPL", None),
        "https://api.example/v3/trades/AAPL"
    );
    let p = TradesParams::new().limit(2);
    assert_eq!(
        urls::trades_url(api, "AAPL", Some(&p.params)),
        "https://api.example/v3/trades/AAPL?limit=2"
    );
    assert_eq!(
        urls::quotes_url(api, "MSFT", None),
        "https://api.example/v3/quotes/MSFT"
    );
    let from = Date::new(2020, 11, 5).unwrap();
    let to = Date::new(2020, 11, 6).unwrap();
    assert_eq!(
        urls::aggs_url(api, "AAPL", 1, Timespan::Minute, &from, &to, None),
        "https://api.example/v2/aggs/ticker/AAPL/range/1/minute/2020-11-05/2020-11-06"
    );
    assert_eq!(
        urls::prev_url(api, "AAPL"),
        "https://api.example/v2/aggs/ticker/AAPL/prev"
    );
    assert_eq!(
        urls::grouped_url(api, Locale::US, Market::Stocks, "2004-01-02", None),
        "https://api.example/v2/aggs/grouped/locale/us/market/stocks/2004-01-02"
    );
    assert_eq!(
        urls::tickers_url(api, None),
        "https://api.example/v3/reference/tickers"
    );
    assert_eq!(
        urls::ticker_details_url(api, "AAPL", None),
        "https://api.example/v3/reference/tickers/AAPL"
    );
    assert_eq!(
        urls::dividends_url(api, "AAPL"),
        "https://api.example/v2/reference/dividends/AAPL"
    );
    assert_eq!(
        urls::splits_url(api, "AAPL"),
        "https://api.example/v2/reference/splits/AAPL"
    );
    assert_eq!(
        urls::financials_url(api, "AAPL", "demo-key"),
        "https://api.example/v2/reference/financials/AAPL?apikey=demo-key"
    );
    assert_eq!(
        urls::locales_url(api),
        "https://api.example/v2/reference/locales"
    );
    assert_eq!(
        urls::markets_url(api),
        "https://api.example/v2/reference/markets"
    );
    assert_eq!(urls::types_url(api), "https://api.example/v2/reference/types");
    assert_eq!(
        urls::market_status_now_url(api),
        "https://api.example/v1/marketstatus/now"
    );
    assert_eq!(
        urls::market_status_upcoming_url(api),
        "https://api.example/v1/marketstatus/upcoming"
    );
}

#[test]
fn equities_are_symbols_without_a_venue_prefix() {
    assert!(urls::is_equity_symbol("AAPL"));
    assert!(urls::is_equity_symbol(""));
    assert!(!urls::is_equity_symbol("X:BTCUSD"));
    assert!(!urls::is_equity_symbol("C:EURUSD"));
}

#[test]
fn error_labels_are_stable() {
    assert_eq!(FetchError::EmptyResult.label(), "empty");
    assert_eq!(
        FetchError::Config("POLYGON_KEY".to_string()).label(),
        "config"
    );
    assert!(!FetchError::EmptyResult.is_transient());
}
