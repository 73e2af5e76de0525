use chrono::{Datelike, NaiveDate};
use trackfolio::date::Date;
use trackfolio::decimal::Dec;
use trackfolio::fx::{
    board_series_url, eur_to_usd, parse_board, parse_quote, parse_series, pct_change, try_eur_to_usd,
    try_parse_series, try_pct_change, FxQuote, EUR_USD_URL,
};

fn dec(s: &str) -> Dec {
    Dec::from_str_exact(s).unwrap()
}

const FIXTURE: &str = r#"{
    "amount": 1.0,
    "base": "EUR",
    "date": "2026-08-28",
    "rates": { "USD": 1.0842 }
}"#;

#[test]
fn eur_usd_url_is_frankfurter_dev_v1() {
    assert_eq!(
        EUR_USD_URL,
        "https://api.frankfurter.dev/v1/latest?from=EUR&to=USD"
    );
    assert!(!EUR_USD_URL.contains("frankfurter.app"));
}

#[test]
fn parses_fixture_rate_and_date() {
    let q = parse_quote(FIXTURE).unwrap();
    assert_eq!(q.rate, dec("1.0842"));
    assert_eq!(q.date, "2026-08-28");
}

#[test]
fn string_rate_parses() {
    let q = parse_quote(r#"{"date": "2026-08-28", "rates": {"USD": "1.0842"}}"#).unwrap();
    assert_eq!(q.rate, dec("1.0842"));
}

#[test]
fn missing_rates_is_err() {
    assert!(parse_quote(r#"{"date": "2026-08-28"}"#).is_err());
}

#[test]
fn missing_usd_rate_is_err() {
    assert!(parse_quote(r#"{"date": "2026-08-28", "rates": {"CHF": 0.9}}"#).is_err());
}

#[test]
fn non_numeric_rate_is_err() {
    assert!(parse_quote(r#"{"date": "2026-08-28", "rates": {"USD": "abc"}}"#).is_err());
}

#[test]
fn malformed_json_is_err() {
    assert!(parse_quote("{not json").is_err());
}

#[test]
fn missing_date_is_err() {
    assert!(parse_quote(r#"{"rates": {"USD": 1.0842}}"#).is_err());
}

#[test]
fn quote_error_messages() {
    assert_eq!(
        parse_quote(r#"{"date": "2026-08-28"}"#).unwrap_err(),
        "FX response missing \"rates.USD\""
    );
    assert_eq!(
        parse_quote(r#"{"rates": {"USD": 1.0842}}"#).unwrap_err(),
        "FX response missing \"date\""
    );
    assert!(parse_quote(r#"{"date": "2026-08-28", "rates": {"USD": "abc"}}"#)
        .unwrap_err()
        .starts_with("FX rate \"abc\" is not a valid decimal: "));
    assert!(parse_quote("{not json")
        .unwrap_err()
        .starts_with("FX response is not valid JSON: "));
}

#[test]
fn eur_to_usd_is_exact() {
    let q = FxQuote {
        rate: dec("1.0842"),
        date: "2026-08-28".to_string(),
    };
    let amount = dec("10000");
    assert_eq!(eur_to_usd(amount, &q), dec("10842"));
}

const BOARD_FIXTURE: &str = r#"{
    "amount": 1.0,
    "base": "EUR",
    "date": "2026-08-28",
    "rates": { "USD": 1.0842, "JPY": 157.32 }
}"#;

#[test]
fn board_series_url_is_frankfurter_dev_range() {
    let t = NaiveDate::from_ymd_opt(2026, 9, 4).unwrap();
    let today = Date::from_days_from_ce(t.num_days_from_ce()).unwrap();
    let url = board_series_url(&today);
    assert_eq!(
        url,
        "https://api.frankfurter.dev/v1/2026-08-25..?from=EUR&to=USD,JPY"
    );
    assert!(!url.contains("frankfurter.app"));
}

#[test]
fn pct_change_positive_and_negative() {
    let up = pct_change(Dec::from_int(110), Dec::from_int(100));
    assert_eq!(up, Some(Dec::from_int(10)));
    let down = pct_change(Dec::from_int(90), Dec::from_int(100));
    assert_eq!(down, Some(Dec::from_int(-10)));
}

#[test]
fn pct_change_zero_prev_is_none() {
    assert_eq!(pct_change(dec("1.16"), Dec::zero()), None);
}

#[test]
fn try_pct_change_reports_overflow() {
    assert_eq!(
        try_pct_change(dec("79228162514264337593543950335"), dec("0.0000000000000000000000000001")),
        None
    );
    assert_eq!(try_pct_change(Dec::from_int(110), Dec::from_int(100)), Some(Some(Dec::from_int(10))));
}

const SERIES_FIXTURE: &str = r#"{
    "amount": 1.0,
    "base": "EUR",
    "start_date": "2026-08-25",
    "end_date": "2026-09-03",
    "rates": {
        "2026-09-02": { "JPY": 184.78, "USD": 1.1578 },
        "2026-09-03": { "JPY": 181.21, "USD": 1.1615 }
    }
}"#;

#[test]
fn parse_series_sets_current_and_pct() {
    let b = parse_series(SERIES_FIXTURE).unwrap();
    assert_eq!(b.usd, Some(dec("1.1615")));
    assert_eq!(b.jpy, Some(dec("181.21")));
    assert_eq!(b.date.as_deref(), Some("2026-09-03"));
    assert_eq!(b.usd_pct, pct_change(dec("1.1615"), dec("1.1578")));
    assert_eq!(b.jpy_pct, pct_change(dec("181.21"), dec("184.78")));
}

#[test]
fn parse_series_single_day_has_no_pct() {
    let b = parse_series(r#"{"rates":{"2026-09-03":{"USD":1.1615,"JPY":181.21}}}"#).unwrap();
    assert_eq!(b.usd_pct, None);
    assert_eq!(b.jpy_pct, None);
    assert_eq!(b.date.as_deref(), Some("2026-09-03"));
}

#[test]
fn parse_series_empty_rates_is_err() {
    assert!(parse_series(r#"{"rates":{}}"#).is_err());
    assert!(parse_series("{not json").is_err());
}

#[test]
fn parse_series_takes_latest_dates_whatever_the_text_order() {
    let body = r#"{"rates":{
        "2026-09-03": {"USD": 1.1615},
        "2026-08-31": {"USD": 1.0},
        "2026-09-02": {"USD": 1.1578}
    }}"#;
    let b = parse_series(body).unwrap();
    assert_eq!(b.date.as_deref(), Some("2026-09-03"));
    assert_eq!(b.usd, Some(dec("1.1615")));
    assert_eq!(b.usd_pct, pct_change(dec("1.1615"), dec("1.1578")));
    assert_eq!(b.jpy, None);
    assert_eq!(b.jpy_pct, None);
}

#[test]
fn parse_series_error_messages() {
    assert_eq!(parse_series(r#"{"rates":{}}"#).unwrap_err(), "FX response has no rate dates");
    assert_eq!(parse_series(r#"{"date":"2026-09-03"}"#).unwrap_err(), "FX response missing \"rates\"");
    assert_eq!(try_parse_series(SERIES_FIXTURE).unwrap().unwrap().date.as_deref(), Some("2026-09-03"));
}

#[test]
fn parse_board_reads_usd_jpy_and_date() {
    let b = parse_board(BOARD_FIXTURE).unwrap();
    assert_eq!(b.usd, Some(dec("1.0842")));
    assert_eq!(b.jpy, Some(dec("157.32")));
    assert_eq!(b.date.as_deref(), Some("2026-08-28"));
}

#[test]
fn parse_board_string_rates() {
    let b = parse_board(r#"{"date":"2026-08-28","rates":{"USD":"1.0842","JPY":"157.32"}}"#).unwrap();
    assert_eq!(b.usd, Some(dec("1.0842")));
    assert_eq!(b.jpy, Some(dec("157.32")));
}

#[test]
fn parse_board_missing_usd_keeps_jpy_and_date() {
    let b = parse_board(r#"{"date":"2026-08-28","rates":{"JPY":157.32}}"#).unwrap();
    assert_eq!(b.usd, None);
    assert_eq!(b.jpy, Some(dec("157.32")));
    assert_eq!(b.date.as_deref(), Some("2026-08-28"));
}

#[test]
fn parse_board_missing_jpy_keeps_usd_and_date() {
    let b = parse_board(r#"{"date":"2026-08-28","rates":{"USD":1.0842}}"#).unwrap();
    assert_eq!(b.usd, Some(dec("1.0842")));
    assert_eq!(b.jpy, None);
    assert_eq!(b.date.as_deref(), Some("2026-08-28"));
}

#[test]
fn parse_board_missing_date_is_err() {
    assert!(parse_board(r#"{"rates":{"USD":1.0842,"JPY":157.32}}"#).is_err());
}

#[test]
fn parse_board_malformed_json_is_err() {
    assert!(parse_board("{not json").is_err());
}

#[test]
fn parse_board_bad_rate_names_the_text() {
    let e = parse_board(r#"{"date":"2026-08-28","rates":{"USD":true}}"#).unwrap_err();
    assert!(e.starts_with("FX rate \"true\" is not a valid decimal: "));
}

#[test]
fn eur_to_usd_keeps_full_precision() {
    let q = FxQuote {
        rate: dec("1.0842"),
        date: "2026-08-28".to_string(),
    };
    let amount = dec("12345.67");
    assert_eq!(eur_to_usd(amount, &q), dec("13385.175414"));
    assert_eq!(try_eur_to_usd(amount, &q), Some(dec("13385.175414")));
}

#[test]
fn eur_to_usd_overflow_is_reported() {
    let q = FxQuote {
        rate: dec("10"),
        date: "2026-08-28".to_string(),
    };
    assert_eq!(try_eur_to_usd(dec("79228162514264337593543950335"), &q), None);
}

#[test]
fn board_and_quote_agree_on_usd() {
    let q = parse_quote(BOARD_FIXTURE).unwrap();
    let b = parse_board(BOARD_FIXTURE).unwrap();
    assert_eq!(b.usd, Some(q.rate));
    assert_eq!(b.date.as_deref(), Some(q.date.as_str()));
}

#[test]
fn rate_text_in_error_is_the_parsed_number() {
    let body = r#"{"date":"2026-08-28","rates":{"USD":8.637276014580738e-10}}"#;
    let parsed: serde_json::Value = serde_json::from_str(body).unwrap();
    let text = parsed["rates"]["USD"].to_string();
    let err = parse_quote(body).unwrap_err();
    let expected = format!("FX rate \"{}\" is not a valid decimal: ", text);
    assert!(err.starts_with(&expected), "{err}");
    let board_err = parse_board(body).unwrap_err();
    assert!(board_err.starts_with(&expected), "{board_err}");
}

#[test]
fn series_rate_text_in_error_is_the_parsed_number() {
    let body = r#"{"rates":{"2026-08-27":{"USD":1.08},"2026-08-28":{"USD":8.637276014580738e-10}}}"#;
    let parsed: serde_json::Value = serde_json::from_str(body).unwrap();
    let text = parsed["rates"]["2026-08-28"]["USD"].to_string();
    let err = parse_series(body).unwrap_err();
    assert!(err.starts_with(&format!("FX rate \"{}\" is not a valid decimal: ", text)), "{err}");
}

#[test]
fn series_is_dated_with_the_latest_day() {
    let body = r#"{"rates":{"2026-08-28":{"USD":"1.1"},"2026-08-26":{"USD":"1.0"},"2026-08-27":{"USD":"1.2"}}}"#;
    let b = parse_series(body).unwrap();
    assert_eq!(b.date.as_deref(), Some("2026-08-28"));
    assert_eq!(b.usd, Some(dec("1.1")));
}
