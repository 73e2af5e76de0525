//! The add/edit form: its fields, keyboard editing, validation, and the
//! position it builds.

use vstd::prelude::*;
use crate::decimal::{Dec, DecV, dec_parse, dec_mul, dec_text, dec_wf, lemma_dec_text_chars, parses_back, opt_dec_view};
use crate::date::{Date, ymd_parse, date_format_ymd};
use crate::fx::{FxQuote, eur_to_usd};
use crate::model::{Kind, Position};
use crate::text::{push_char, pop_char, str_eq, trim, trimmed, owned, is_white_space, lemma_trimmed_unchanged};

verus! {

/// Whether the form adds a position or edits the one at `index`.
#[derive(Clone, Copy, Debug, PartialEq, Eq, Structural)]
pub enum OverlayMode {
    Add,
    Edit { index: usize },
}

/// The fields of the form, in tab order.
#[derive(Clone, Copy, Debug, PartialEq, Eq, Structural)]
pub enum Field {
    Name,
    Kind,
    Currency,
    Amount,
    Yield,
    Maturity,
}

/// The state of the form. `maturity` holds the date field, which is the
/// start date for deposits and the maturity otherwise.
#[derive(Debug)]
pub struct OverlayState {
    pub mode: OverlayMode,
    pub focus: Field,
    pub name: String,
    pub kind: Kind,
    pub currency: String,
    pub amount: String,
    pub yield_pct: String,
    pub maturity: String,
    pub error: Option<String>,
}

/// The amount and yield read from a valid form.
#[derive(Debug)]
pub struct ParsedInput {
    pub amount: Dec,
    pub yield_pct: Dec,
}

/// The field after `f` in tab order (wrapping around).
pub open spec fn next_field(f: Field) -> Field {
    match f {
        Field::Name => Field::Kind,
        Field::Kind => Field::Currency,
        Field::Currency => Field::Amount,
        Field::Amount => Field::Yield,
        Field::Yield => Field::Maturity,
        Field::Maturity => Field::Name,
    }
}

/// The field before `f` in tab order (wrapping around).
pub open spec fn prev_field(f: Field) -> Field {
    match f {
        Field::Name => Field::Maturity,
        Field::Kind => Field::Name,
        Field::Currency => Field::Kind,
        Field::Amount => Field::Currency,
        Field::Yield => Field::Amount,
        Field::Maturity => Field::Yield,
    }
}

/// The kind after (or before) `k` in the cycle T-Bill, Deposit, Other.
pub open spec fn cycled_kind(k: Kind, forward: bool) -> Kind {
    match (k, forward) {
        (Kind::Tbill, true) | (Kind::Other, false) => Kind::Deposit,
        (Kind::Deposit, true) | (Kind::Tbill, false) => Kind::Other,
        (Kind::Other, true) | (Kind::Deposit, false) => Kind::Tbill,
    }
}

/// The currency after a toggle: EUR becomes USD, anything else EUR.
pub open spec fn toggled_currency(c: Seq<char>) -> Seq<char> {
    if c == "EUR"@ {
        "USD"@
    } else {
        "EUR"@
    }
}

/// Whether `f` is one of the text fields.
pub open spec fn is_text_field(f: Field) -> bool {
    f == Field::Name || f == Field::Amount || f == Field::Yield || f == Field::Maturity
}

/// The text of the focused field, for text fields.
pub open spec fn focused_text(s: OverlayState) -> Seq<char> {
    match s.focus {
        Field::Name => s.name@,
        Field::Amount => s.amount@,
        Field::Yield => s.yield_pct@,
        _ => s.maturity@,
    }
}

/// `new` is `old` with only the focused text field changed, to `text`.
pub open spec fn with_focused_text(old: OverlayState, new: OverlayState, text: Seq<char>) -> bool {
    &&& new.mode == old.mode
    &&& new.focus == old.focus
    &&& new.kind == old.kind
    &&& new.currency == old.currency
    &&& new.error == old.error
    &&& (if old.focus == Field::Name { new.name@ == text } else { new.name == old.name })
    &&& (if old.focus == Field::Amount { new.amount@ == text } else { new.amount == old.amount })
    &&& (if old.focus == Field::Yield { new.yield_pct@ == text } else { new.yield_pct == old.yield_pct })
    &&& (if old.focus == Field::Maturity { new.maturity@ == text } else { new.maturity == old.maturity })
}

/// The label of the date field: "start date" for deposits, "maturity" otherwise.
pub open spec fn date_label_spec(k: Kind) -> Seq<char> {
    if k == Kind::Deposit {
        "start date"@
    } else {
        "maturity"@
    }
}

/// The text of the form's amount for a position: the EUR source amount for
/// EUR positions that keep one, the USD principal otherwise.
pub open spec fn amount_text_spec(p: Position) -> Seq<char> {
    if p.source_ccy@ == "EUR"@ && p.source_amount is Some {
        dec_text(p.source_amount->0@)
    } else {
        dec_text(p.principal_usd@)
    }
}

/// The date of a position that the form shows: the start date of a deposit,
/// the maturity otherwise, or nothing.
pub open spec fn date_text_spec(p: Position) -> Seq<char> {
    let d = if p.kind == Kind::Deposit { p.start_date } else { p.maturity };
    match d {
        Some(s) => s@,
        None => Seq::empty(),
    }
}

/// A strict `YYYY-MM-DD` date: it parses, and prints back as the same text.
pub open spec fn iso_date_spec(s: Seq<char>) -> bool {
    match ymd_parse(s) {
        Some(d) => date_format_ymd(d) == s,
        None => false,
    }
}

/// What `validate_overlay` gives: the first failing check's message, or the amount and yield.
pub open spec fn validate_spec(s: OverlayState) -> Result<(DecV, DecV), Seq<char>> {
    if trimmed(s.name@).len() == 0 {
        Err("name is required"@)
    } else {
        match dec_parse(trimmed(s.amount@)) {
            Err(_) => Err("amount must be a number"@),
            Ok(a) => if a.mantissa <= 0 {
                Err("amount must be greater than zero"@)
            } else {
                match dec_parse(trimmed(s.yield_pct@)) {
                    Err(_) => Err("yield must be a number"@),
                    Ok(y) => if y.mantissa < 0 {
                        Err("yield must be zero or greater"@)
                    } else if s.maturity@.len() > 0 && !iso_date_spec(s.maturity@) {
                        Err(date_label_spec(s.kind) + " must be YYYY-MM-DD"@)
                    } else {
                        Ok((a, y))
                    },
                }
            },
        }
    }
}

/// The amount of the form reads as a decimal above zero.
pub open spec fn amount_accepted(s: OverlayState) -> bool {
    dec_parse(trimmed(s.amount@)) matches Ok(a) && a.mantissa > 0
}

/// `s` shows `p` as the edit form does: its name, kind and currency, the text
/// of its amount and yield, and the date its kind uses.
pub open spec fn form_of(s: OverlayState, p: Position) -> bool {
    &&& s.name@ == p.name@
    &&& s.kind == p.kind
    &&& s.currency@ == p.source_ccy@
    &&& s.amount@ == amount_text_spec(p)
    &&& s.yield_pct@ == dec_text(p.yield_pct@)
    &&& s.maturity@ == date_text_spec(p)
}

/// Two positions with the same identifier, kind and fields, by their views.
pub open spec fn same_position(a: Position, b: Position) -> bool {
    &&& a.id == b.id
    &&& a.kind == b.kind
    &&& a.name@ == b.name@
    &&& a.principal_usd@ == b.principal_usd@
    &&& a.yield_pct@ == b.yield_pct@
    &&& opt_text(a.maturity) == opt_text(b.maturity)
    &&& opt_text(a.start_date) == opt_text(b.start_date)
    &&& a.source_ccy@ == b.source_ccy@
    &&& opt_dec_view(a.source_amount) == opt_dec_view(b.source_amount)
    &&& opt_dec_view(a.fx_rate) == opt_dec_view(b.fx_rate)
    &&& opt_text(a.fx_date) == opt_text(b.fx_date)
}

pub open spec fn opt_text(o: Option<String>) -> Option<Seq<char>> {
    match o {
        Some(s) => Some(s@),
        None => None,
    }
}

/// A USD position that the edit form gives back unchanged: valid decimals,
/// no EUR source, a name that is its own trim and not empty, a principal
/// above zero, a yield of zero or more (not negative zero), the date that the
/// kind does not use absent, and the one it uses absent or a strict
/// `YYYY-MM-DD` date.
pub open spec fn reopens_unchanged(p: Position) -> bool {
    &&& dec_wf(p.principal_usd@)
    &&& dec_wf(p.yield_pct@)
    &&& p.source_ccy@ == "USD"@
    &&& p.source_amount is None
    &&& p.fx_rate is None
    &&& p.fx_date is None
    &&& trimmed(p.name@) == p.name@
    &&& p.name@.len() > 0
    &&& p.principal_usd@.mantissa > 0
    &&& p.yield_pct@.mantissa >= 0
    &&& !p.yield_pct@.negative
    &&& p.kind == Kind::Deposit ==> p.maturity is None
    &&& p.kind != Kind::Deposit ==> p.start_date is None
    &&& date_text_spec(p).len() > 0 ==> iso_date_spec(date_text_spec(p))
    &&& date_text_spec(p).len() == 0 ==> p.maturity is None && p.start_date is None
}

/// The decimal texts of a form of `p` are their own trim.
proof fn lemma_form_texts_trimmed(s: OverlayState, p: Position)
    requires
        reopens_unchanged(p),
        form_of(s, p),
    ensures
        trimmed(s.amount@) == dec_text(p.principal_usd@),
        trimmed(s.yield_pct@) == dec_text(p.yield_pct@),
{
    reveal_strlit("USD");
    reveal_strlit("EUR");
    assert("USD"@[0] != "EUR"@[0]);
    assert(s.amount@ == dec_text(p.principal_usd@));
    lemma_dec_text_chars(p.principal_usd@);
    lemma_dec_text_chars(p.yield_pct@);
    let a = dec_text(p.principal_usd@);
    let y = dec_text(p.yield_pct@);
    assert(!is_white_space(a[0]) && !is_white_space(a.last()));
    assert(!is_white_space(y[0]) && !is_white_space(y.last()));
    lemma_trimmed_unchanged(a);
    lemma_trimmed_unchanged(y);
}

proof fn lemma_unchanged_form_builds_back(s: OverlayState, p: Position, q: Position)
    requires
        reopens_unchanged(p),
        form_of(s, p),
        trimmed(s.name@).len() > 0 ==> parses_back(trimmed(s.amount@)),
        trimmed(s.name@).len() > 0 && amount_accepted(s)
            ==> parses_back(trimmed(s.yield_pct@)),
    ensures
        build_error_spec(s, None) is None,
        built_position_spec(s, None, p.id, q) ==> same_position(q, p),
{
    reveal_strlit("USD");
    reveal_strlit("EUR");
    assert("USD"@[0] != "EUR"@[0]);
    lemma_form_texts_trimmed(s, p);
    assert(crate::decimal::reads_back(p.principal_usd@));
    assert(crate::decimal::reads_back(p.yield_pct@));
    assert(dec_parse(dec_text(p.principal_usd@)) == Ok::<DecV, Seq<char>>(p.principal_usd@));
    assert(dec_parse(dec_text(p.yield_pct@)) == Ok::<DecV, Seq<char>>(p.yield_pct@));
    assert(validate_spec(s) == Ok::<(DecV, DecV), Seq<char>>((p.principal_usd@, p.yield_pct@)));
}

impl OverlayState {
    /// An empty form for a new USD T-Bill, focused on the name.
    pub fn new_add() -> (r: Self)
        ensures
            r.mode == OverlayMode::Add,
            r.focus == Field::Name,
            r.name@ == Seq::<char>::empty(),
            r.kind == Kind::Tbill,
            r.currency@ == "USD"@,
            r.amount@ == Seq::<char>::empty(),
            r.yield_pct@ == Seq::<char>::empty(),
            r.maturity@ == Seq::<char>::empty(),
            r.error is None,
    {
        OverlayState {
            mode: OverlayMode::Add,
            focus: Field::Name,
            name: String::new(),
            kind: Kind::Tbill,
            currency: String::from_str("USD"),
            amount: String::new(),
            yield_pct: String::new(),
            maturity: String::new(),
            error: None,
        }
    }

    /// The form for editing position `p`, which stands at `index`.
    pub fn from_position(index: usize, p: &Position) -> (r: Self)
        ensures
            r.mode == (OverlayMode::Edit { index }),
            r.focus == Field::Name,
            form_of(r, *p),
            r.error is None,
    {
        let amount = match &p.source_amount {
            Some(a) => if str_eq(p.source_ccy.as_str(), "EUR") {
                a.to_text()
            } else {
                p.principal_usd.to_text()
            },
            None => p.principal_usd.to_text(),
        };
        let date = if p.kind == Kind::Deposit {
            &p.start_date
        } else {
            &p.maturity
        };
        let maturity = match date {
            Some(s) => s.clone(),
            None => String::new(),
        };
        let yield_text = p.yield_pct.to_text();
        let r = OverlayState {
            mode: OverlayMode::Edit { index },
            focus: Field::Name,
            name: p.name.clone(),
            kind: p.kind,
            currency: p.source_ccy.clone(),
            amount,
            yield_pct: yield_text,
            maturity,
            error: None,
        };
        r
    }

    /// Moves the focus to the next field.
    pub fn focus_next(&mut self)
        ensures
            *final(self) == (OverlayState { focus: next_field(old(self).focus), ..*old(self) }),
    {
        self.focus = match self.focus {
            Field::Name => Field::Kind,
            Field::Kind => Field::Currency,
            Field::Currency => Field::Amount,
            Field::Amount => Field::Yield,
            Field::Yield => Field::Maturity,
            Field::Maturity => Field::Name,
        };
    }

    /// Moves the focus to the previous field.
    pub fn focus_prev(&mut self)
        ensures
            *final(self) == (OverlayState { focus: prev_field(old(self).focus), ..*old(self) }),
    {
        self.focus = match self.focus {
            Field::Name => Field::Maturity,
            Field::Kind => Field::Name,
            Field::Currency => Field::Kind,
            Field::Amount => Field::Currency,
            Field::Yield => Field::Amount,
            Field::Maturity => Field::Yield,
        };
    }

    /// Types `c` into the focused field, where it is a text field.
    pub fn text_buffer_push(&mut self, c: char)
        ensures
            is_text_field(old(self).focus) ==> with_focused_text(*old(self), *final(self), focused_text(*old(self)).push(c)),
            !is_text_field(old(self).focus) ==> *final(self) == *old(self),
    {
        match self.focus {
            Field::Name => push_char(&mut self.name, c),
            Field::Amount => push_char(&mut self.amount, c),
            Field::Yield => push_char(&mut self.yield_pct, c),
            Field::Maturity => push_char(&mut self.maturity, c),
            Field::Kind | Field::Currency => {},
        }
    }

    /// Deletes the last character of the focused field, where it is a text field.
    pub fn text_buffer_pop(&mut self)
        ensures
            is_text_field(old(self).focus) ==> with_focused_text(
                *old(self),
                *final(self),
                if focused_text(*old(self)).len() == 0 { focused_text(*old(self)) } else { focused_text(*old(self)).drop_last() },
            ),
            !is_text_field(old(self).focus) ==> *final(self) == *old(self),
    {
        match self.focus {
            Field::Name => {
                pop_char(&mut self.name);
            },
            Field::Amount => {
                pop_char(&mut self.amount);
            },
            Field::Yield => {
                pop_char(&mut self.yield_pct);
            },
            Field::Maturity => {
                pop_char(&mut self.maturity);
            },
            Field::Kind | Field::Currency => {},
        }
    }

    /// Cycles the kind forward (T-Bill, Deposit, Other) or backward.
    pub fn cycle_kind(&mut self, forward: bool)
        ensures
            *final(self) == (OverlayState { kind: cycled_kind(old(self).kind, forward), ..*old(self) }),
    {
        self.kind = match (self.kind, forward) {
            (Kind::Tbill, true) | (Kind::Other, false) => Kind::Deposit,
            (Kind::Deposit, true) | (Kind::Tbill, false) => Kind::Other,
            (Kind::Other, true) | (Kind::Deposit, false) => Kind::Tbill,
        };
    }

    /// Switches the currency between EUR and USD (anything but EUR becomes EUR).
    pub fn toggle_currency(&mut self)
        ensures
            final(self).currency@ == toggled_currency(old(self).currency@),
            *final(self) == (OverlayState { currency: final(self).currency, ..*old(self) }),
    {
        self.currency = if str_eq(self.currency.as_str(), "EUR") {
            String::from_str("USD")
        } else {
            String::from_str("EUR")
        };
    }
}

/// "start date" for deposits, "maturity" for the other kinds.
pub fn date_field_label(kind: &Kind) -> (r: &'static str)
    ensures
        r@ == date_label_spec(*kind),
{
    match kind {
        Kind::Deposit => "start date",
        Kind::Tbill | Kind::Other => "maturity",
    }
}

/// Whether `s` is a date in strict `YYYY-MM-DD` form.
pub fn is_iso_date(s: &str) -> (r: bool)
    ensures
        r == iso_date_spec(s@),
{
    match Date::parse_ymd(s) {
        Some(d) => {
            let t = d.format_ymd();
            str_eq(t.as_str(), s)
        },
        None => false,
    }
}

/// A trimmed buffer as a decimal, or "<field> must be a number".
fn parse_buffer(buffer: &str, field: &str) -> (r: Result<Dec, String>)
    ensures
        match (r, dec_parse(trimmed(buffer@))) {
            (Ok(d), Ok(v)) => d@ == v,
            (Err(e), Err(_)) => e@ == field@ + " must be a number"@,
            _ => false,
        },
        parses_back(trimmed(buffer@)),
{
    match Dec::from_str_exact(trim(buffer)) {
        Ok(d) => Ok(d),
        Err(_) => {
            let mut m = owned(field);
            m.append(" must be a number");
            Err(m)
        },
    }
}

/// Checks the form: a name, an amount above zero, a yield of zero or more,
/// and a date that is empty or strict `YYYY-MM-DD`, in that order.
pub fn validate_overlay(state: &OverlayState) -> (r: Result<ParsedInput, String>)
    ensures
        match (r, validate_spec(*state)) {
            (Ok(p), Ok((a, y))) => p.amount@ == a && p.yield_pct@ == y,
            (Err(e), Err(m)) => e@ == m,
            _ => false,
        },
        trimmed(state.name@).len() > 0 ==> parses_back(trimmed(state.amount@)),
        trimmed(state.name@).len() > 0 && amount_accepted(*state)
            ==> parses_back(trimmed(state.yield_pct@)),
{
    if trim(state.name.as_str()).unicode_len() == 0 {
        return Err(String::from_str("name is required"));
    }
    let amount = match parse_buffer(state.amount.as_str(), "amount") {
        Ok(a) => a,
        Err(e) => {
            proof {
                reveal_strlit("amount");
                reveal_strlit(" must be a number");
                reveal_strlit("amount must be a number");
                assert(e@ =~= "amount must be a number"@);
            }
            return Err(e);
        },
    };
    if !amount.is_above_zero() {
        return Err(String::from_str("amount must be greater than zero"));
    }
    let yield_pct = match parse_buffer(state.yield_pct.as_str(), "yield") {
        Ok(y) => y,
        Err(e) => {
            proof {
                reveal_strlit("yield");
                reveal_strlit(" must be a number");
                reveal_strlit("yield must be a number");
                assert(e@ =~= "yield must be a number"@);
            }
            return Err(e);
        },
    };
    if yield_pct.is_below_zero() {
        return Err(String::from_str("yield must be zero or greater"));
    }
    if state.maturity.unicode_len() != 0 && !is_iso_date(state.maturity.as_str()) {
        let mut m = owned(date_field_label(&state.kind));
        m.append(" must be YYYY-MM-DD");
        return Err(m);
    }
    Ok(ParsedInput { amount, yield_pct })
}

pub open spec fn deref_quote(q: Option<&FxQuote>) -> Option<FxQuote> {
    match q {
        Some(x) => Some(*x),
        None => None,
    }
}

/// Where the form would build an EUR position, its USD principal does not overflow.
pub open spec fn build_fits(s: OverlayState, quote: Option<FxQuote>) -> bool {
    match (validate_spec(s), quote) {
        (Ok((a, _)), Some(q)) => s.currency@ == "EUR"@ ==> dec_mul(a, q.rate@) is Some,
        _ => true,
    }
}

/// The message with which `build_position` refuses the form, if it does.
pub open spec fn build_error_spec(s: OverlayState, quote: Option<FxQuote>) -> Option<Seq<char>> {
    match validate_spec(s) {
        Err(m) => Some(m),
        Ok(_) => if s.currency@ == "EUR"@ && quote is None {
            Some("FX rate unavailable"@)
        } else {
            None
        },
    }
}

/// `p` is the position that a valid form `s` describes: USD amounts are taken
/// as they are; EUR amounts are converted at the quote, which is kept with the
/// position; the date goes to the start date of a deposit, to the maturity otherwise.
pub open spec fn built_position_spec(s: OverlayState, quote: Option<FxQuote>, id: ulid::Ulid, p: Position) -> bool {
    &&& validate_spec(s) is Ok
    &&& p.id == id
    &&& p.kind == s.kind
    &&& p.name@ == trimmed(s.name@)
    &&& p.yield_pct@ == validate_spec(s)->Ok_0.1
    &&& if s.currency@ == "EUR"@ {
        &&& quote is Some
        &&& p.principal_usd@ == dec_mul(validate_spec(s)->Ok_0.0, quote->0.rate@)->0
        &&& p.source_ccy@ == "EUR"@
        &&& p.source_amount matches Some(a) && a@ == validate_spec(s)->Ok_0.0
        &&& p.fx_rate matches Some(r) && r@ == quote->0.rate@
        &&& p.fx_date matches Some(d) && d@ == quote->0.date@
    } else {
        &&& p.principal_usd@ == validate_spec(s)->Ok_0.0
        &&& p.source_ccy@ == "USD"@
        &&& p.source_amount is None
        &&& p.fx_rate is None
        &&& p.fx_date is None
    }
    &&& if s.maturity@.len() == 0 {
        p.maturity is None && p.start_date is None
    } else if s.kind == Kind::Deposit {
        p.maturity is None && (p.start_date matches Some(d) && d@ == s.maturity@)
    } else {
        p.start_date is None && (p.maturity matches Some(d) && d@ == s.maturity@)
    }
}

pub open spec fn build_result_spec(s: OverlayState, quote: Option<FxQuote>, id: ulid::Ulid, r: Result<Position, String>) -> bool {
    match r {
        Ok(p) => build_error_spec(s, quote) is None && built_position_spec(s, quote, id, p),
        Err(e) => build_error_spec(s, quote) == Some(e@),
    }
}

/// The position the form describes, with identifier `id`; the validation
/// message, or "FX rate unavailable" for EUR without a quote, otherwise.
/// Saved unchanged, the form of a USD position that it accepts builds the
/// same position again.
pub fn build_position(state: &OverlayState, quote: Option<&FxQuote>, id: ulid::Ulid) -> (r: Result<Position, String>)
    requires
        build_fits(*state, deref_quote(quote)),
    ensures
        build_result_spec(*state, deref_quote(quote), id, r),
        quote is None ==> forall|p: Position|
            reopens_unchanged(p) && #[trigger] form_of(*state, p) && p.id == id
                ==> (r matches Ok(q) && same_position(q, p)),
{
    let r = build_checked(state, quote, id);
    proof {
        if quote is None {
            assert forall|p: Position|
                reopens_unchanged(p) && #[trigger] form_of(*state, p) && p.id == id
                implies (r matches Ok(q) && same_position(q, p)) by {
                match r {
                    Ok(q) => lemma_unchanged_form_builds_back(*state, p, q),
                    Err(_) => lemma_unchanged_form_builds_back(*state, p, p),
                }
            }
        }
    }
    r
}

fn build_checked(state: &OverlayState, quote: Option<&FxQuote>, id: ulid::Ulid) -> (r: Result<Position, String>)
    requires
        build_fits(*state, deref_quote(quote)),
    ensures
        build_result_spec(*state, deref_quote(quote), id, r),
        trimmed(state.name@).len() > 0 ==> parses_back(trimmed(state.amount@)),
        trimmed(state.name@).len() > 0 && amount_accepted(*state)
            ==> parses_back(trimmed(state.yield_pct@)),
{
    let input = match validate_overlay(state) {
        Ok(i) => i,
        Err(e) => return Err(e),
    };
    let eur = str_eq(state.currency.as_str(), "EUR");
    let (principal_usd, source_ccy, source_amount, fx_rate, fx_date) = if eur {
        let q = match quote {
            Some(q) => q,
            None => return Err(String::from_str("FX rate unavailable")),
        };
        (
            eur_to_usd(input.amount, q),
            String::from_str("EUR"),
            Some(input.amount),
            Some(q.rate),
            Some(q.date.clone()),
        )
    } else {
        (input.amount, String::from_str("USD"), None, None, None)
    };
    let date = if state.maturity.unicode_len() == 0 {
        None
    } else {
        Some(state.maturity.clone())
    };
    let (maturity, start_date) = if state.kind == Kind::Deposit {
        (None, date)
    } else {
        (date, None)
    };
    Ok(Position {
        id,
        kind: state.kind,
        name: owned(trim(state.name.as_str())),
        principal_usd,
        yield_pct: input.yield_pct,
        maturity,
        start_date,
        source_ccy,
        source_amount,
        fx_rate,
        fx_date,
    })
}

/// `build_position` where an EUR principal does not overflow; `None` where it would.
pub fn try_build_position(state: &OverlayState, quote: Option<&FxQuote>, id: ulid::Ulid) -> (r: Option<Result<Position, String>>)
    ensures
        r is Some <==> build_fits(*state, deref_quote(quote)),
        r matches Some(x) ==> build_result_spec(*state, deref_quote(quote), id, x),
        quote is None ==> forall|p: Position|
            reopens_unchanged(p) && #[trigger] form_of(*state, p) && p.id == id
                ==> (r matches Some(Ok(q)) && same_position(q, p)),
{
    match (validate_overlay(state), quote) {
        (Ok(input), Some(q)) => {
            if str_eq(state.currency.as_str(), "EUR") && input.amount.checked_mul(&q.rate).is_none() {
                return None;
            }
        },
        _ => {},
    }
    Some(build_position(state, quote, id))
}

} // verus!
