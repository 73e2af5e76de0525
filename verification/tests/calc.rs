use chrono::{Datelike, NaiveDate};
use rust_decimal::Decimal;
use trackfolio::calc::{book, current_value, row, try_book, try_current_value, try_row};
use trackfolio::date::Date;
use trackfolio::decimal::Dec;
use trackfolio::model::{Kind, Position};

fn dec(s: &str) -> Dec {
    Dec::from_str_exact(s).unwrap()
}

fn d(v: i64) -> Dec {
    Dec::from_int(v)
}

fn to_decimal(v: Dec) -> Decimal {
    let mut x = Decimal::from_i128_with_scale(v.mantissa(), v.scale());
    x.set_sign_negative(v.is_sign_negative());
    x
}

fn pos(principal: &str, yield_pct: &str) -> Position {
    pos_with(Kind::Tbill, principal, yield_pct, None)
}

fn pos_with(kind: Kind, principal: &str, yield_pct: &str, start: Option<&str>) -> Position {
    Position {
        id: ulid::Ulid::new(),
        kind,
        name: "test".to_string(),
        principal_usd: dec(principal),
        yield_pct: dec(yield_pct),
        maturity: None,
        start_date: start.map(|s| s.to_string()),
        source_ccy: "USD".to_string(),
        source_amount: None,
        fx_rate: None,
        fx_date: None,
    }
}

fn today() -> Date {
    let t = NaiveDate::from_ymd_opt(2026, 8, 30).unwrap();
    Date::from_days_from_ce(t.num_days_from_ce()).unwrap()
}

fn oracle(principal: Dec, yield_pct: Dec, n: i64) -> Decimal {
    let factor = Decimal::from(1) + to_decimal(yield_pct) / Decimal::from(100) / Decimal::from(365);
    let mut v = to_decimal(principal);
    for _ in 0..n {
        v = v * factor;
    }
    v
}

fn mul(a: Dec, b: Dec) -> Dec {
    a.checked_mul(&b).unwrap()
}

fn div(a: Dec, b: Dec) -> Dec {
    a.checked_div(&b).unwrap()
}

fn add(a: Dec, b: Dec) -> Dec {
    a.checked_add(&b).unwrap()
}

fn sub(a: Dec, b: Dec) -> Dec {
    a.checked_sub(&b).unwrap()
}

fn approx_eq(a: Dec, b: Dec, eps: Dec) -> bool {
    let diff = sub(a, b);
    let abs = if diff.is_below_zero() { diff.neg() } else { diff };
    to_decimal(abs) < to_decimal(eps)
}

#[test]
fn deposit_compounds_daily_from_start_date() {
    let today = today();
    let start = today.minus_days(365);
    let p = pos_with(Kind::Deposit, "30000", "3.8", Some(&start.to_text()));
    let expected = oracle(p.principal_usd, p.yield_pct, 365);
    assert_eq!(to_decimal(current_value(&p, &today)), expected);
    assert!(to_decimal(current_value(&p, &today)) > to_decimal(p.principal_usd));
}

#[test]
fn deposit_start_today_is_nominal() {
    let today = today();
    let p = pos_with(Kind::Deposit, "30000", "3.8", Some(&today.to_text()));
    assert_eq!(current_value(&p, &today), dec("30000"));
}

#[test]
fn deposit_future_start_is_nominal() {
    let today = today();
    let start = today.plus_days(1);
    let p = pos_with(Kind::Deposit, "30000", "3.8", Some(&start.to_text()));
    assert_eq!(current_value(&p, &today), dec("30000"));
}

#[test]
fn deposit_without_start_date_is_nominal() {
    let today = today();
    let p = pos_with(Kind::Deposit, "30000", "3.8", None);
    assert_eq!(current_value(&p, &today), dec("30000"));
}

#[test]
fn deposit_invalid_start_date_is_nominal() {
    let today = today();
    let p = pos_with(Kind::Deposit, "30000", "3.8", Some("not-a-date"));
    assert_eq!(current_value(&p, &today), dec("30000"));
}

#[test]
fn tbill_with_start_date_is_nominal() {
    let today = today();
    let start = today.minus_days(365);
    let p = pos_with(Kind::Tbill, "30000", "3.8", Some(&start.to_text()));
    assert_eq!(current_value(&p, &today), dec("30000"));
}

#[test]
fn deposit_row_projects_off_grown_value() {
    let today = today();
    let start = today.minus_days(365);
    let p = pos_with(Kind::Deposit, "30000", "3.8", Some(&start.to_text()));
    let r = row(&p, &today);
    let expected_year = div(mul(current_value(&p, &today), p.yield_pct), d(100));
    assert_eq!(r.year, expected_year);
    assert_eq!(r.month, div(expected_year, d(12)));
    assert_eq!(r.week, div(expected_year, d(52)));
    assert_eq!(r.day, div(expected_year, d(365)));
}

#[test]
fn deposit_book_uses_grown_capital() {
    let today = today();
    let start = today.minus_days(365);
    let p = pos_with(Kind::Deposit, "30000", "3.8", Some(&start.to_text()));
    let b = book(&[p.clone()], &today);
    let grown = current_value(&p, &today);
    assert_eq!(b.capital, grown);
    assert_eq!(b.year, div(mul(grown, p.yield_pct), d(100)));
    assert_eq!(b.book_yield, div(b.year, b.capital));
}

#[test]
fn row_projections_exact() {
    let r = row(&pos("50000", "5.12"), &today());
    assert_eq!(r.year, dec("2560"));
    assert_eq!(r.month, div(d(2560), d(12)));
    assert_eq!(r.week, div(d(2560), d(52)));
    assert_eq!(r.day, div(d(2560), d(365)));
}

#[test]
fn book_three_positions_weighted_yield() {
    let positions = vec![
        pos("50000", "5.12"),
        pos("30000", "3.80"),
        pos("40000", "4.00"),
    ];
    let b = book(&positions, &today());
    assert_eq!(b.capital, d(120000));
    assert_eq!(b.book_yield, div(d(5300), d(120000)));
    assert_eq!(b.year, d(5300));
    let eps = to_dec(Decimal::new(1, 24));
    assert!(approx_eq(mul(b.day, d(365)), b.year, eps));
    assert!(approx_eq(mul(b.month, d(12)), b.year, eps));
    assert!(approx_eq(mul(b.week, d(52)), b.year, eps));
}

fn to_dec(v: Decimal) -> Dec {
    Dec::from_str_exact(&v.to_string()).unwrap()
}

#[test]
fn book_empty_is_all_zero() {
    let b = book(&[], &today());
    assert_eq!(b.capital, Dec::zero());
    assert_eq!(b.book_yield, Dec::zero());
    assert_eq!(b.year, Dec::zero());
    assert_eq!(b.month, Dec::zero());
    assert_eq!(b.week, Dec::zero());
    assert_eq!(b.day, Dec::zero());
}

#[test]
fn book_single_row_yield_is_ratio() {
    let b = book(&[pos("50000", "5.12")], &today());
    assert_eq!(b.book_yield, div(dec("5.12"), d(100)));
}

#[test]
fn book_capital_is_sum_of_current_values() {
    let today = today();
    let start = today.minus_days(30);
    let dep = pos_with(Kind::Deposit, "10000", "4", Some(&start.to_text()));
    let tb = pos("2500.50", "5");
    let b = book(&[dep.clone(), tb.clone()], &today);
    let expected = add(current_value(&dep, &today), current_value(&tb, &today));
    assert_eq!(b.capital, expected);
    assert_eq!(b.year, add(row(&dep, &today).year, row(&tb, &today).year));
}

#[test]
fn book_without_capital_has_zero_yield() {
    let b = book(&[pos("0", "5")], &today());
    assert_eq!(b.capital, Dec::zero());
    assert_eq!(b.book_yield, Dec::zero());
}

#[test]
fn try_variants_agree_with_plain_ones() {
    let today = today();
    let start = today.minus_days(10);
    let p = pos_with(Kind::Deposit, "1000", "2.5", Some(&start.to_text()));
    assert_eq!(try_current_value(&p, &today), Some(current_value(&p, &today)));
    assert_eq!(try_row(&p, &today).unwrap().year, row(&p, &today).year);
    assert_eq!(try_book(&[p.clone()], &today).unwrap().capital, book(&[p], &today).capital);
}

#[test]
fn compounding_overflow_is_reported() {
    let today = today();
    let start = today.minus_days(3650);
    let p = pos_with(Kind::Deposit, "79228162514264337593543950335", "100", Some(&start.to_text()));
    assert_eq!(try_current_value(&p, &today), None);
    assert!(try_book(&[p], &today).is_none());
}

#[test]
fn one_day_compounds_once() {
    let today = today();
    let start = today.minus_days(1);
    let p = pos_with(Kind::Deposit, "1000", "36.5", Some(&start.to_text()));
    // factor = 1 + 36.5/100/365 = 1.001
    assert_eq!(current_value(&p, &today), d(1001));
}

#[test]
fn one_more_day_multiplies_by_the_factor() {
    let today = today();
    let tomorrow = today.plus_days(1);
    let p = pos_with(Kind::Deposit, "1000", "36.5", Some(&today.minus_days(3).to_text()));
    let factor = dec("1.001");
    assert_eq!(current_value(&p, &tomorrow), mul(current_value(&p, &today), factor));
}

#[test]
fn deposit_value_never_shrinks_with_time() {
    let today = today();
    let start = today.minus_days(400);
    let p = pos_with(Kind::Deposit, "12345.67", "0.0001", Some(&start.to_text()));
    let nominal = to_decimal(dec("12345.67"));
    let mut previous = nominal;
    for back in (0..=400).rev().step_by(37) {
        let v = to_decimal(current_value(&p, &today.minus_days(back)));
        assert!(v >= nominal);
        assert!(v >= previous);
        previous = v;
    }
}

#[test]
fn one_row_book_yield_is_the_yield_over_100() {
    let b = book(&[pos("2500.50", "4.25")], &today());
    assert_eq!(to_decimal(b.book_yield), to_decimal(dec("0.0425")));
    let today = today();
    let dep = pos_with(Kind::Deposit, "1000", "36.5", Some(&today.minus_days(1).to_text()));
    let b = book(&[dep], &today);
    assert_eq!(to_decimal(b.book_yield), to_decimal(dec("0.365")));
}
