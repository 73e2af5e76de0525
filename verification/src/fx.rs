//! EUR exchange rates from the Frankfurter API: request URLs, reading the
//! JSON answers, converting amounts and day-over-day changes. The requests
//! themselves are made by the application.

use vstd::prelude::*;
use crate::decimal::{Dec, DecV, dec_sub, dec_mul, dec_div, dec_parse, dec_of_int, opt_dec_view};
use crate::date::{Date, days_in_range, date_display};
use crate::json::{JsonNode, NodeV, json_at, node_at, keys_view, keys_ascending, chars_lt};
use crate::json;

verus! {

/// The latest EUR to USD rate.
pub const EUR_USD_URL: &'static str = "https://api.frankfurter.dev/v1/latest?from=EUR&to=USD";

/// A rate and the date it was published for.
#[derive(Debug, Clone, PartialEq)]
pub struct FxQuote {
    pub rate: Dec,
    pub date: String,
}

/// EUR against USD and JPY, with the change from the previous published day in percent.
#[derive(Debug, Clone, PartialEq)]
pub struct FxBoard {
    pub usd: Option<Dec>,
    pub jpy: Option<Dec>,
    pub usd_pct: Option<Dec>,
    pub jpy_pct: Option<Dec>,
    pub date: Option<String>,
}

pub struct FxQuoteV {
    pub rate: DecV,
    pub date: Seq<char>,
}

pub struct FxBoardV {
    pub usd: Option<DecV>,
    pub jpy: Option<DecV>,
    pub usd_pct: Option<DecV>,
    pub jpy_pct: Option<DecV>,
    pub date: Option<Seq<char>>,
}

impl View for FxQuote {
    type V = FxQuoteV;

    open spec fn view(&self) -> FxQuoteV {
        FxQuoteV { rate: self.rate@, date: self.date@ }
    }
}

pub open spec fn opt_string_view(o: Option<String>) -> Option<Seq<char>> {
    match o {
        Some(s) => Some(s@),
        None => None,
    }
}

impl View for FxBoard {
    type V = FxBoardV;

    open spec fn view(&self) -> FxBoardV {
        FxBoardV {
            usd: opt_dec_view(self.usd),
            jpy: opt_dec_view(self.jpy),
            usd_pct: opt_dec_view(self.usd_pct),
            jpy_pct: opt_dec_view(self.jpy_pct),
            date: opt_string_view(self.date),
        }
    }
}

/// The address of the daily EUR series (to USD and JPY) from ten days before `today` on.
pub open spec fn series_url_spec(today: Date) -> Seq<char> {
    "https://api.frankfurter.dev/v1/"@ + date_display(today.spec_days() - 10)
        + "..?from=EUR&to=USD,JPY"@
}

/// The series address for `today`.
pub fn board_series_url(today: &Date) -> (r: String)
    requires
        days_in_range(today.spec_days() - 10),
    ensures
        r@ == series_url_spec(*today),
{
    let start = today.minus_days(10);
    let mut url = String::from_str("https://api.frankfurter.dev/v1/");
    let day = start.to_text();
    url.append(day.as_str());
    url.append("..?from=EUR&to=USD,JPY");
    url
}

/// A EUR amount in USD at the quote's rate: `amount * rate`, exactly.
pub fn eur_to_usd(amount: Dec, q: &FxQuote) -> (r: Dec)
    requires
        dec_mul(amount@, q.rate@) is Some,
    ensures
        r@ == dec_mul(amount@, q.rate@)->0,
{
    amount.mul(&q.rate)
}

/// `eur_to_usd` where the product does not overflow; `None` where it would.
pub fn try_eur_to_usd(amount: Dec, q: &FxQuote) -> (r: Option<Dec>)
    ensures
        opt_dec_view(r) == dec_mul(amount@, q.rate@),
{
    match amount.checked_mul(&q.rate) {
        Some(_) => Some(eur_to_usd(amount, q)),
        None => None,
    }
}

/// The change from `prev` to `curr` in percent, `(curr - prev) / prev * 100`;
/// the inner `None` where `prev` is zero, the outer `None` where the arithmetic overflows.
pub open spec fn pct_change_spec(curr: DecV, prev: DecV) -> Option<Option<DecV>> {
    if prev.mantissa == 0 {
        Some(None)
    } else {
        match dec_sub(curr, prev) {
            Some(d) => match dec_div(d, prev) {
                Some(q) => match dec_mul(q, dec_of_int(100)) {
                    Some(p) => Some(Some(p)),
                    None => None,
                },
                None => None,
            },
            None => None,
        }
    }
}

pub open spec fn opt_opt_dec_view(o: Option<Option<Dec>>) -> Option<Option<DecV>> {
    match o {
        Some(x) => Some(opt_dec_view(x)),
        None => None,
    }
}

fn checked_pct_change(curr: Dec, prev: Dec) -> (r: Option<Option<Dec>>)
    ensures
        opt_opt_dec_view(r) == pct_change_spec(curr@, prev@),
{
    if prev.is_zero() {
        return Some(None);
    }
    let d = match curr.checked_sub(&prev) {
        Some(d) => d,
        None => return None,
    };
    let q = match d.checked_div(&prev) {
        Some(q) => q,
        None => return None,
    };
    match q.checked_mul(&Dec::from_int(100)) {
        Some(p) => Some(Some(p)),
        None => None,
    }
}

/// The change from `prev` to `curr` in percent; `None` when `prev` is zero.
pub fn pct_change(curr: Dec, prev: Dec) -> (r: Option<Dec>)
    requires
        pct_change_spec(curr@, prev@) is Some,
    ensures
        opt_dec_view(r) == pct_change_spec(curr@, prev@)->0,
        r is None <==> prev@.mantissa == 0,
{
    match checked_pct_change(curr, prev) {
        Some(r) => r,
        None => unreached(),
    }
}

/// `pct_change` where it does not overflow; `None` where it would.
pub fn try_pct_change(curr: Dec, prev: Dec) -> (r: Option<Option<Dec>>)
    ensures
        opt_opt_dec_view(r) == pct_change_spec(curr@, prev@),
{
    match checked_pct_change(curr, prev) {
        Some(_) => Some(pct_change(curr, prev)),
        None => None,
    }
}

/// The text of a rate value: a JSON string as it is, null as none, any other
/// value by its compact JSON text.
pub open spec fn rate_string_spec(n: NodeV) -> Option<Seq<char>> {
    match n {
        NodeV::Null => None,
        NodeV::Str(s) => Some(s),
        NodeV::Object(_, t) => Some(t),
        NodeV::Other(t) => Some(t),
    }
}

pub open spec fn invalid_rate_msg(s: Seq<char>, e: Seq<char>) -> Seq<char> {
    "FX rate \""@ + s + "\" is not a valid decimal: "@ + e
}

pub open spec fn decimal_rate_spec(s: Seq<char>) -> Result<DecV, Seq<char>> {
    match dec_parse(s) {
        Ok(v) => Ok(v),
        Err(e) => Err(invalid_rate_msg(s, e)),
    }
}

/// A rate value read as a decimal: none for null, an error for text that is no decimal.
pub open spec fn optional_rate_spec(n: NodeV) -> Result<Option<DecV>, Seq<char>> {
    match rate_string_spec(n) {
        None => Ok(None),
        Some(s) => match decimal_rate_spec(s) {
            Ok(v) => Ok(Some(v)),
            Err(m) => Err(m),
        },
    }
}

pub open spec fn invalid_json_msg(e: Seq<char>) -> Seq<char> {
    "FX response is not valid JSON: "@ + e
}

fn rate_string(n: &JsonNode) -> (r: Option<String>)
    ensures
        opt_string_view(r) == rate_string_spec(n@),
{
    match n {
        JsonNode::Null => None,
        JsonNode::Str(s) => Some(s.clone()),
        JsonNode::Object(_, t) => Some(t.clone()),
        JsonNode::Other(t) => Some(t.clone()),
    }
}

fn decimal_rate(s: &str) -> (r: Result<Dec, String>)
    ensures
        match (r, decimal_rate_spec(s@)) {
            (Ok(x), Ok(v)) => x@ == v,
            (Err(e), Err(m)) => e@ == m,
            _ => false,
        },
{
    match Dec::from_str_exact(s) {
        Ok(d) => Ok(d),
        Err(e) => {
            let mut m = String::from_str("FX rate \"");
            m.append(s);
            m.append("\" is not a valid decimal: ");
            m.append(e.as_str());
            Err(m)
        },
    }
}

fn optional_rate(n: &JsonNode) -> (r: Result<Option<Dec>, String>)
    ensures
        match (r, optional_rate_spec(n@)) {
            (Ok(x), Ok(v)) => opt_dec_view(x) == v,
            (Err(e), Err(m)) => e@ == m,
            _ => false,
        },
{
    match rate_string(n) {
        None => Ok(None),
        Some(s) => match decimal_rate(s.as_str()) {
            Ok(d) => Ok(Some(d)),
            Err(m) => Err(m),
        },
    }
}

fn invalid_json(e: &str) -> (r: String)
    ensures
        r@ == invalid_json_msg(e@),
{
    let mut m = String::from_str("FX response is not valid JSON: ");
    m.append(e);
    m
}

/// What `parse_quote` gives for a response body.
pub open spec fn parse_quote_spec(body: Seq<char>) -> Result<FxQuoteV, Seq<char>> {
    match json_at(body, Seq::empty()) {
        Err(e) => Err(invalid_json_msg(e)),
        Ok(_) => match node_at(body, seq!["date"@]) {
            NodeV::Str(date) => match rate_string_spec(node_at(body, seq!["rates"@].push("USD"@))) {
                None => Err("FX response missing \"rates.USD\""@),
                Some(s) => match decimal_rate_spec(s) {
                    Ok(rate) => Ok(FxQuoteV { rate, date }),
                    Err(m) => Err(m),
                },
            },
            _ => Err("FX response missing \"date\""@),
        },
    }
}

/// Reads a latest-rate answer: its `date` and its `rates.USD`.
pub fn parse_quote(body: &str) -> (r: Result<FxQuote, String>)
    ensures
        match (r, parse_quote_spec(body@)) {
            (Ok(q), Ok(v)) => q@ == v,
            (Err(e), Err(m)) => e@ == m,
            _ => false,
        },
{
    let root = match json::parse(body) {
        Ok(v) => v,
        Err(e) => return Err(invalid_json(e.as_str())),
    };
    let date = match json::node(&json::at(&root, "date")) {
        JsonNode::Str(d) => d,
        _ => return Err(String::from_str("FX response missing \"date\"")),
    };
    let rates = json::at(&root, "rates");
    let rate_value = match rate_string(&json::node(&json::at(&rates, "USD"))) {
        Some(s) => s,
        None => return Err(String::from_str("FX response missing \"rates.USD\"")),
    };
    match decimal_rate(rate_value.as_str()) {
        Ok(rate) => Ok(FxQuote { rate, date }),
        Err(m) => Err(m),
    }
}

/// What `parse_board` gives for a response body.
pub open spec fn parse_board_spec(body: Seq<char>) -> Result<FxBoardV, Seq<char>> {
    match json_at(body, Seq::empty()) {
        Err(e) => Err(invalid_json_msg(e)),
        Ok(_) => match node_at(body, seq!["date"@]) {
            NodeV::Str(date) => match optional_rate_spec(node_at(body, seq!["rates"@].push("USD"@))) {
                Err(m) => Err(m),
                Ok(usd) => match optional_rate_spec(node_at(body, seq!["rates"@].push("JPY"@))) {
                    Err(m) => Err(m),
                    Ok(jpy) => Ok(
                        FxBoardV { usd, jpy, usd_pct: None, jpy_pct: None, date: Some(date) },
                    ),
                },
            },
            _ => Err("FX response missing \"date\""@),
        },
    }
}

/// Reads a latest-rates answer into a board: the date, USD and JPY where
/// present, no changes.
pub fn parse_board(body: &str) -> (r: Result<FxBoard, String>)
    ensures
        match (r, parse_board_spec(body@)) {
            (Ok(b), Ok(v)) => b@ == v,
            (Err(e), Err(m)) => e@ == m,
            _ => false,
        },
{
    let root = match json::parse(body) {
        Ok(v) => v,
        Err(e) => return Err(invalid_json(e.as_str())),
    };
    let date = match json::node(&json::at(&root, "date")) {
        JsonNode::Str(d) => d,
        _ => return Err(String::from_str("FX response missing \"date\"")),
    };
    let rates = json::at(&root, "rates");
    let usd = match optional_rate(&json::node(&json::at(&rates, "USD"))) {
        Ok(u) => u,
        Err(m) => return Err(m),
    };
    let jpy = match optional_rate(&json::node(&json::at(&rates, "JPY"))) {
        Ok(j) => j,
        Err(m) => return Err(m),
    };
    Ok(FxBoard { usd, jpy, usd_pct: None, jpy_pct: None, date: Some(date) })
}

/// The rate of `ccy` on `day` in a series answer, read as `optional_rate` reads it.
pub open spec fn day_rate(body: Seq<char>, day: Seq<char>, ccy: Seq<char>) -> Result<Option<DecV>, Seq<char>> {
    optional_rate_spec(node_at(body, seq!["rates"@].push(day).push(ccy)))
}

/// The change between two optional rates: none unless both are there.
pub open spec fn zip_pct(curr: Option<DecV>, prev: Option<DecV>) -> Option<Option<DecV>> {
    match (curr, prev) {
        (Some(c), Some(p)) => pct_change_spec(c, p),
        _ => Some(None),
    }
}

/// The board from the two latest days of a series, given the dates under
/// `rates` in ascending order; the outer `None` where a change overflows.
pub open spec fn series_board(body: Seq<char>, days: Seq<Seq<char>>) -> Option<Result<FxBoardV, Seq<char>>> {
    let curr = days.last();
    match day_rate(body, curr, "USD"@) {
        Err(m) => Some(Err(m)),
        Ok(usd) => match day_rate(body, curr, "JPY"@) {
            Err(m) => Some(Err(m)),
            Ok(jpy) => if days.len() >= 2 {
                let prev = days[days.len() - 2];
                match day_rate(body, prev, "USD"@) {
                    Err(m) => Some(Err(m)),
                    Ok(prev_usd) => match day_rate(body, prev, "JPY"@) {
                        Err(m) => Some(Err(m)),
                        Ok(prev_jpy) => match (zip_pct(usd, prev_usd), zip_pct(jpy, prev_jpy)) {
                            (Some(usd_pct), Some(jpy_pct)) => Some(
                                Ok(FxBoardV { usd, jpy, usd_pct, jpy_pct, date: Some(curr) }),
                            ),
                            _ => None,
                        },
                    },
                }
            } else {
                Some(Ok(FxBoardV { usd, jpy, usd_pct: None, jpy_pct: None, date: Some(curr) }))
            },
        },
    }
}

/// What `parse_series` gives for a response body; `None` where a decimal
/// operation of a change overflows.
pub open spec fn parse_series_spec(body: Seq<char>) -> Option<Result<FxBoardV, Seq<char>>> {
    match json_at(body, Seq::empty()) {
        Err(e) => Some(Err(invalid_json_msg(e))),
        Ok(_) => match node_at(body, seq!["rates"@]) {
            NodeV::Object(days, _) => if days.len() == 0 {
                Some(Err("FX response has no rate dates"@))
            } else {
                series_board(body, days)
            },
            _ => Some(Err("FX response missing \"rates\""@)),
        },
    }
}

/// `date` is one of the dates under `rates` of a series answer, and every
/// other date there comes before it.
pub open spec fn dated_latest(body: Seq<char>, date: Option<Seq<char>>) -> bool {
    &&& node_at(body, seq!["rates"@]) matches NodeV::Object(days, _)
    &&& date matches Some(d)
    &&& days.contains(d)
    &&& forall|i: int| 0 <= i < days.len() && days[i] != d ==> chars_lt(#[trigger] days[i], d)
}

pub open spec fn series_result_matches(r: Result<FxBoard, String>, s: Result<FxBoardV, Seq<char>>) -> bool {
    match (r, s) {
        (Ok(b), Ok(v)) => b@ == v,
        (Err(e), Err(m)) => e@ == m,
        _ => false,
    }
}

/// The rates of `ccy` on the day `day` reached.
fn day_rate_of(day: &json::JsonValue, ccy: &str) -> (r: Result<Option<Dec>, String>)
    requires
        json_at(day@.0, day@.1) is Ok,
    ensures
        match (r, optional_rate_spec(node_at(day@.0, day@.1.push(ccy@)))) {
            (Ok(x), Ok(v)) => opt_dec_view(x) == v,
            (Err(e), Err(m)) => e@ == m,
            _ => false,
        },
{
    optional_rate(&json::node(&json::at(day, ccy)))
}

fn checked_parse_series(body: &str) -> (r: Option<Result<FxBoard, String>>)
    ensures
        match (r, parse_series_spec(body@)) {
            (Some(x), Some(s)) => series_result_matches(x, s),
            (None, None) => true,
            _ => false,
        },
        r matches Some(Ok(b)) ==> dated_latest(body@, b@.date),
{
    let root = match json::parse(body) {
        Ok(v) => v,
        Err(e) => return Some(Err(invalid_json(e.as_str()))),
    };
    let rates = json::at(&root, "rates");
    let days = match json::node(&rates) {
        JsonNode::Object(ks, _) => ks,
        _ => return Some(Err(String::from_str("FX response missing \"rates\""))),
    };
    let len = days.len();
    if len == 0 {
        return Some(Err(String::from_str("FX response has no rate dates")));
    }
    let ghost dv = keys_view(days@);
    assert(rates@.1 == seq!["rates"@]);
    assert(dv.last() == days@[len - 1]@);
    let curr = json::at(&rates, days[len - 1].as_str());
    assert(curr@.1.push("USD"@) == seq!["rates"@].push(dv.last()).push("USD"@));
    assert(curr@.1.push("JPY"@) == seq!["rates"@].push(dv.last()).push("JPY"@));
    let usd = match day_rate_of(&curr, "USD") {
        Ok(u) => u,
        Err(m) => return Some(Err(m)),
    };
    let jpy = match day_rate_of(&curr, "JPY") {
        Ok(j) => j,
        Err(m) => return Some(Err(m)),
    };
    let date = Some(days[len - 1].clone());
    proof {
        assert(keys_ascending(dv));
        assert(dv.contains(dv.last())) by {
            assert(dv[len - 1] == dv.last());
        }
        assert forall|i: int| 0 <= i < dv.len() && dv[i] != dv.last() implies chars_lt(#[trigger] dv[i], dv.last()) by {
            assert(i < len - 1);
        }
    }
    if len >= 2 {
        assert(dv[len - 2] == days@[len - 2]@);
        let prev = json::at(&rates, days[len - 2].as_str());
        assert(prev@.1.push("USD"@) == seq!["rates"@].push(dv[len - 2]).push("USD"@));
        assert(prev@.1.push("JPY"@) == seq!["rates"@].push(dv[len - 2]).push("JPY"@));
        let prev_usd = match day_rate_of(&prev, "USD") {
            Ok(u) => u,
            Err(m) => return Some(Err(m)),
        };
        let prev_jpy = match day_rate_of(&prev, "JPY") {
            Ok(j) => j,
            Err(m) => return Some(Err(m)),
        };
        let usd_pct = match (usd, prev_usd) {
            (Some(c), Some(p)) => match checked_pct_change(c, p) {
                Some(x) => x,
                None => return None,
            },
            _ => None,
        };
        let jpy_pct = match (jpy, prev_jpy) {
            (Some(c), Some(p)) => match checked_pct_change(c, p) {
                Some(x) => x,
                None => return None,
            },
            _ => None,
        };
        Some(Ok(FxBoard { usd, jpy, usd_pct, jpy_pct, date }))
    } else {
        Some(Ok(FxBoard { usd, jpy, usd_pct: None, jpy_pct: None, date }))
    }
}

/// Reads a series answer into a board: the rates of the latest date, and
/// their change in percent from the date before, where both days have them.
/// The board is dated with the latest date of the series.
pub fn parse_series(body: &str) -> (r: Result<FxBoard, String>)
    requires
        parse_series_spec(body@) is Some,
    ensures
        series_result_matches(r, parse_series_spec(body@)->0),
        r matches Ok(b) ==> dated_latest(body@, b@.date),
{
    let r = checked_parse_series(body);
    match r {
        Some(r) => r,
        None => unreached(),
    }
}

/// `parse_series` where no change overflows; `None` where one would.
pub fn try_parse_series(body: &str) -> (r: Option<Result<FxBoard, String>>)
    ensures
        match (r, parse_series_spec(body@)) {
            (Some(x), Some(s)) => series_result_matches(x, s),
            (None, None) => true,
            _ => false,
        },
        r matches Some(Ok(b)) ==> dated_latest(body@, b@.date),
{
    match checked_parse_series(body) {
        Some(_) => Some(parse_series(body)),
        None => None,
    }
}

} // verus!
