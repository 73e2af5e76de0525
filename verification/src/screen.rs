//! What the screen shows, as text: the totals bar, the rows of the book
//! table and the lines of the form. The application draws them.

use vstd::prelude::*;
use crate::calc::{BookCalc, RowCalc, row, try_row, row_spec, current_value_spec};
use crate::date::{Date, ymd_parse};
use crate::decimal::{Dec, dec_mul, dec_of_int};
use crate::format::{fmt_money, fmt_pct, fmt_date, fmt_money_spec, fmt_2dp_spec};
use crate::model::{Kind, Position};
use crate::overlay::{OverlayMode, OverlayState, Field, date_field_label, date_label_spec};
use crate::text::{push_char, owned};
use crate::ui::{kind_label, row_date, display_principal};

verus! {

/// The decimal digits of `n`, as `usize`'s `Display` writes them.
pub open spec fn digits_spec(n: nat) -> Seq<char>
    decreases n,
{
    if n < 10 {
        seq![digit_char(n)]
    } else {
        digits_spec(n / 10).push(digit_char(n % 10))
    }
}

pub open spec fn digit_char(d: nat) -> char {
    if d == 0 { '0' } else if d == 1 { '1' } else if d == 2 { '2' } else if d == 3 { '3' } else if d == 4 { '4' }
    else if d == 5 { '5' } else if d == 6 { '6' } else if d == 7 { '7' } else if d == 8 { '8' } else { '9' }
}

fn digit(d: usize) -> (c: char)
    requires
        d < 10,
    ensures
        c == digit_char(d as nat),
{
    if d == 0 { '0' } else if d == 1 { '1' } else if d == 2 { '2' } else if d == 3 { '3' } else if d == 4 { '4' }
    else if d == 5 { '5' } else if d == 6 { '6' } else if d == 7 { '7' } else if d == 8 { '8' } else { '9' }
}

/// `n` in decimal digits.
pub fn number_text(n: usize) -> (r: String)
    ensures
        r@ == digits_spec(n as nat),
    decreases n,
{
    if n < 10 {
        let mut s = String::new();
        push_char(&mut s, digit(n));
        s
    } else {
        let mut s = number_text(n / 10);
        push_char(&mut s, digit(n % 10));
        s
    }
}

/// Whether a position's maturity has passed: it parses and lies before today.
pub open spec fn expired_spec(p: Position, today: Date) -> bool {
    match p.maturity {
        Some(m) => match ymd_parse(m@) {
            Some(d) => d < today.spec_days(),
            None => false,
        },
        None => false,
    }
}

/// Whether the position's maturity has passed; such rows are shown in red.
pub fn is_expired(p: &Position, today: &Date) -> (r: bool)
    ensures
        r == expired_spec(*p, *today),
{
    match &p.maturity {
        Some(m) => match Date::parse_ymd(m.as_str()) {
            Some(d) => today.days_since(&d) > 0,
            None => false,
        },
        None => false,
    }
}

/// One row of the book table.
pub struct TableRow {
    pub cells: Vec<String>,
    pub expired: bool,
}

/// The cells of row `index` (counted from 0) for position `p`: its number,
/// kind, name, current principal, yield, date, and daily, weekly, monthly
/// and yearly interest.
pub open spec fn row_cells_spec(index: usize, p: Position, today: Date) -> Seq<Seq<char>> {
    let r = row_spec(p, today)->0;
    let date = if p.kind == Kind::Deposit { p.start_date } else { p.maturity };
    seq![
        digits_spec(index as nat + 1),
        match p.kind {
            Kind::Tbill => "T-Bill"@,
            Kind::Deposit => "Deposit"@,
            Kind::Other => "Other"@,
        },
        p.name@,
        fmt_money_spec(current_value_spec(p, today)->0),
        fmt_2dp_spec(p.yield_pct@).push('%'),
        match date {
            Some(d) => d@,
            None => "\u{2014}"@,
        },
        fmt_money_spec(r.day),
        fmt_money_spec(r.week),
        fmt_money_spec(r.month),
        fmt_money_spec(r.year),
    ]
}

pub open spec fn strings_view(v: Seq<String>) -> Seq<Seq<char>> {
    v.map_values(|s: String| s@)
}

/// Row `index` of the book table.
pub fn book_row(index: usize, p: &Position, today: &Date) -> (r: TableRow)
    requires
        index < usize::MAX,
        row_spec(*p, *today) is Some,
    ensures
        strings_view(r.cells@) == row_cells_spec(index, *p, *today),
        r.expired == expired_spec(*p, *today),
{
    let rc: RowCalc = row(p, today);
    let mut cells: Vec<String> = Vec::new();
    cells.push(number_text(index + 1));
    cells.push(owned(kind_label(&p.kind)));
    cells.push(p.name.clone());
    cells.push(fmt_money(display_principal(p, today)));
    cells.push(fmt_pct(p.yield_pct));
    cells.push(fmt_date(row_date(p)));
    cells.push(fmt_money(rc.day));
    cells.push(fmt_money(rc.week));
    cells.push(fmt_money(rc.month));
    cells.push(fmt_money(rc.year));
    proof {
        assert(strings_view(cells@) =~= row_cells_spec(index, *p, *today));
    }
    TableRow { cells, expired: is_expired(p, today) }
}

/// All rows of the book table, where no projection overflows; `None` where one would.
pub fn try_book_rows(positions: &[Position], today: &Date) -> (r: Option<Vec<TableRow>>)
    ensures
        r is Some <==> forall|i: int| 0 <= i < positions@.len() ==> (#[trigger] row_spec(positions@[i], *today)) is Some,
        r matches Some(rows) ==> rows@.len() == positions@.len() && forall|i: int|
            0 <= i < rows@.len() ==> strings_view((#[trigger] rows@[i]).cells@) == row_cells_spec(i as usize, positions@[i], *today)
                && rows@[i].expired == expired_spec(positions@[i], *today),
{
    let mut rows: Vec<TableRow> = Vec::new();
    let mut i: usize = 0;
    while i < positions.len()
        invariant
            i <= positions@.len(),
            rows@.len() == i,
            forall|j: int| 0 <= j < i ==> (#[trigger] row_spec(positions@[j], *today)) is Some,
            forall|j: int|
                0 <= j < i ==> strings_view((#[trigger] rows@[j]).cells@) == row_cells_spec(j as usize, positions@[j], *today)
                    && rows@[j].expired == expired_spec(positions@[j], *today),
        decreases positions@.len() - i,
    {
        if try_row(&positions[i], today).is_none() {
            return None;
        }
        rows.push(book_row(i, &positions[i], today));
        i = i + 1;
    }
    Some(rows)
}

/// The totals bar: capital, yield in percent, and the daily, weekly, monthly
/// and yearly interest.
pub open spec fn kpi_spec(t: crate::calc::BookV) -> Seq<(Seq<char>, Seq<char>)> {
    seq![
        ("CAPITAL"@, fmt_money_spec(t.capital)),
        ("YIELD"@, fmt_2dp_spec(dec_mul(t.book_yield, dec_of_int(100))->0).push('%')),
        ("DAY"@, fmt_money_spec(t.day)),
        ("WEEK"@, fmt_money_spec(t.week)),
        ("MONTH"@, fmt_money_spec(t.month)),
        ("YEAR"@, fmt_money_spec(t.year)),
    ]
}

pub open spec fn items_view(v: Seq<(&'static str, String)>) -> Seq<(Seq<char>, Seq<char>)> {
    v.map_values(|x: (&'static str, String)| (x.0@, x.1@))
}

/// The labels and values of the totals bar.
pub fn kpi_items(totals: &BookCalc) -> (r: Vec<(&'static str, String)>)
    requires
        dec_mul(totals.book_yield@, dec_of_int(100)) is Some,
    ensures
        items_view(r@) == kpi_spec(totals@),
{
    let pct = totals.book_yield.mul(&Dec::from_int(100));
    let mut items: Vec<(&'static str, String)> = Vec::new();
    items.push(("CAPITAL", fmt_money(totals.capital)));
    items.push(("YIELD", fmt_pct(pct)));
    items.push(("DAY", fmt_money(totals.day)));
    items.push(("WEEK", fmt_money(totals.week)));
    items.push(("MONTH", fmt_money(totals.month)));
    items.push(("YEAR", fmt_money(totals.year)));
    proof {
        assert(items_view(items@) =~= kpi_spec(totals@));
    }
    items
}

/// `kpi_items` where the yield in percent does not overflow; `None` where it would.
pub fn try_kpi_items(totals: &BookCalc) -> (r: Option<Vec<(&'static str, String)>>)
    ensures
        r is Some <==> dec_mul(totals.book_yield@, dec_of_int(100)) is Some,
        r matches Some(items) ==> items_view(items@) == kpi_spec(totals@),
{
    match totals.book_yield.checked_mul(&Dec::from_int(100)) {
        Some(_) => Some(kpi_items(totals)),
        None => None,
    }
}

/// The form as text: its title, one line per field, a blank line and the
/// error or the key help; `focused` is the line of the focused field.
pub struct OverlayView {
    pub title: &'static str,
    pub lines: Vec<String>,
    pub focused: usize,
    pub is_error: bool,
}

/// `label` padded with spaces to nine characters (`{:<9}`).
pub open spec fn pad9(label: Seq<char>) -> Seq<char>
    decreases 9 - label.len(),
{
    if label.len() >= 9 {
        label
    } else {
        pad9(label.push(' '))
    }
}

/// ` label value ` with the label padded to nine characters.
pub open spec fn field_line(label: Seq<char>, value: Seq<char>) -> Seq<char> {
    seq![' '] + pad9(label) + seq![' '] + value + seq![' ']
}

pub open spec fn field_index(f: Field) -> usize {
    match f {
        Field::Name => 0,
        Field::Kind => 1,
        Field::Currency => 2,
        Field::Amount => 3,
        Field::Yield => 4,
        Field::Maturity => 5,
    }
}

pub open spec fn overlay_lines_spec(o: OverlayState) -> Seq<Seq<char>> {
    seq![
        field_line("name"@, o.name@),
        field_line("kind"@, match o.kind {
            Kind::Tbill => "T-Bill"@,
            Kind::Deposit => "Deposit"@,
            Kind::Other => "Other"@,
        }),
        field_line("currency"@, o.currency@),
        field_line("amount"@, o.amount@),
        field_line("yield %"@, o.yield_pct@),
        field_line(date_label_spec(o.kind), if o.maturity@.len() == 0 { "\u{2014}"@ } else { o.maturity@ }),
        Seq::empty(),
        match o.error {
            Some(e) => seq![' '] + e@,
            None => " enter: save  esc: cancel  tab: next"@,
        },
    ]
}

fn pad_label(label: &str) -> (r: String)
    ensures
        r@ == pad9(label@),
{
    let mut s = owned(label);
    let n = label.unicode_len();
    let mut k = n;
    while k < 9
        invariant
            n <= k,
            s@.len() == k,
            pad9(s@) == pad9(label@),
        decreases 9 - k,
    {
        push_char(&mut s, ' ');
        k = k + 1;
    }
    s
}

fn field_line_text(label: &str, value: &str) -> (r: String)
    ensures
        r@ == field_line(label@, value@),
{
    let mut s = String::new();
    push_char(&mut s, ' ');
    let p = pad_label(label);
    s.append(p.as_str());
    push_char(&mut s, ' ');
    s.append(value);
    push_char(&mut s, ' ');
    proof {
        assert(s@ =~= field_line(label@, value@));
    }
    s
}

/// The form as the screen shows it.
pub fn overlay_view(o: &OverlayState) -> (r: OverlayView)
    ensures
        r.title@ == (if o.mode == OverlayMode::Add { " add position "@ } else { " edit position "@ }),
        strings_view(r.lines@) == overlay_lines_spec(*o),
        r.focused == field_index(o.focus),
        r.is_error == o.error is Some,
{
    let title = match o.mode {
        OverlayMode::Add => " add position ",
        OverlayMode::Edit { .. } => " edit position ",
    };
    let mut lines: Vec<String> = Vec::new();
    lines.push(field_line_text("name", o.name.as_str()));
    lines.push(field_line_text("kind", kind_label(&o.kind)));
    lines.push(field_line_text("currency", o.currency.as_str()));
    lines.push(field_line_text("amount", o.amount.as_str()));
    lines.push(field_line_text("yield %", o.yield_pct.as_str()));
    let date = if o.maturity.unicode_len() == 0 {
        String::from_str("\u{2014}")
    } else {
        o.maturity.clone()
    };
    lines.push(field_line_text(date_field_label(&o.kind), date.as_str()));
    lines.push(String::new());
    match &o.error {
        Some(e) => {
            let mut s = String::new();
            push_char(&mut s, ' ');
            s.append(e.as_str());
            lines.push(s);
        },
        None => lines.push(String::from_str(" enter: save  esc: cancel  tab: next")),
    }
    proof {
        assert(strings_view(lines@) =~= overlay_lines_spec(*o));
    }
    let focused: usize = match o.focus {
        Field::Name => 0,
        Field::Kind => 1,
        Field::Currency => 2,
        Field::Amount => 3,
        Field::Yield => 4,
        Field::Maturity => 5,
    };
    OverlayView { title, lines, focused, is_error: o.error.is_some() }
}

/// The footer's message part: the message after a space.
pub fn footer_message(message: &Option<String>) -> (r: Option<String>)
    ensures
        match (r, *message) {
            (Some(t), Some(m)) => t@ == seq![' '] + m@,
            (None, None) => true,
            _ => false,
        },
{
    match message {
        Some(m) => {
            let mut s = String::new();
            push_char(&mut s, ' ');
            s.append(m.as_str());
            Some(s)
        },
        None => None,
    }
}

} // verus!
