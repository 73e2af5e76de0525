//! Properties of the library as a whole, stated over the contracts of its
//! functions and proved from them.

use vstd::prelude::*;
use crate::calc::{
    current_value_spec, compound, daily_factor, start_days, book_sums, book_spec, zero_totals,
    row_spec, add_position,
};
use crate::date::Date;
use crate::decimal::{dec_mul, dec_of_int};
use crate::fx::{parse_quote_spec, parse_board_spec, parse_series_spec, day_rate, zip_pct};
use crate::json::{NodeV, node_at, keys_ascending, chars_lt};
use crate::date::ymd_parse;
use crate::format::{fmt_money_spec, fmt_2dp_spec};
use crate::screen::{row_cells_spec, kpi_spec};
use crate::ui::quoted_msg;
use crate::model::{Kind, Position};
use crate::overlay::{Field, OverlayState, next_field, prev_field, cycled_kind, toggled_currency, validate_spec};
use crate::text::{all_white_space, trimmed, lemma_trimmed_empty};
use crate::decimal::DecV;
use crate::format::{grouped_prefix, grouped_piece, group_thousands_spec, bytes_len};
use crate::ui::{App, KeyEvent, selection_valid};

verus! {

/// T-Bills and other non-deposit positions stay at their nominal, whatever
/// their dates: the kind selects the formula.
pub proof fn law_non_deposits_stay_at_nominal(p: Position, today: Date)
    requires
        p.kind != Kind::Deposit,
    ensures
        current_value_spec(p, today) == Some(p.principal_usd@),
{
}

/// A deposit without a start date that parses stays at its nominal.
pub proof fn law_deposit_without_start_is_nominal(p: Position, today: Date)
    requires
        start_days(p) is None,
    ensures
        current_value_spec(p, today) == Some(p.principal_usd@),
{
}

/// A deposit that starts today or later has not grown yet.
pub proof fn law_deposit_not_started_is_nominal(p: Position, today: Date)
    requires
        start_days(p) matches Some(s) && today.spec_days() <= s,
    ensures
        current_value_spec(p, today) == Some(p.principal_usd@),
{
}

/// One more day of a running deposit multiplies its value by the daily
/// factor `1 + yield/100/365`.
pub proof fn law_one_more_day_multiplies_by_factor(p: Position, today: Date, tomorrow: Date)
    requires
        p.kind == Kind::Deposit,
        start_days(p) matches Some(s) && today.spec_days() - s >= 1,
        tomorrow.spec_days() == today.spec_days() + 1,
        daily_factor(p.yield_pct@) is Some,
        current_value_spec(p, today) is Some,
    ensures
        current_value_spec(p, tomorrow) == dec_mul(
            current_value_spec(p, today)->0,
            daily_factor(p.yield_pct@)->0,
        ),
{
    let s = start_days(p)->0;
    let n = today.spec_days() - s;
    let f = daily_factor(p.yield_pct@)->0;
    assert(compound(p.principal_usd@, f, (n + 1) as nat) == match compound(p.principal_usd@, f, n as nat) {
        Some(v) => dec_mul(v, f),
        None => None,
    });
}

/// The book of no positions is all zeros, its yield included.
pub proof fn law_empty_book_is_zero(today: Date)
    ensures
        book_spec(Seq::empty(), today) == Some(zero_totals()),
{
}

/// Adding a position to the book adds its current value to the capital and its
/// projections to the totals, in order.
pub proof fn law_book_sums_add_up(ps: Seq<Position>, p: Position, today: Date)
    ensures
        book_sums(ps.push(p), today) == match book_sums(ps, today) {
            None => None,
            Some(acc) => match (row_spec(p, today), current_value_spec(p, today)) {
                (Some(r), Some(v)) => add_position(acc, v, r),
                _ => None,
            },
        },
{
    assert(ps.push(p).drop_last() =~= ps);
    assert(ps.push(p).last() == p);
}

/// The book's yield is the yearly interest over the capital where the capital
/// is above zero, and zero otherwise.
pub proof fn law_book_yield_is_weighted(ps: Seq<Position>, today: Date)
    requires
        book_spec(ps, today) is Some,
    ensures
        ({
            let s = book_sums(ps, today)->0;
            let b = book_spec(ps, today)->0;
            &&& b.capital == s.capital
            &&& b.year == s.year
            &&& s.capital.mantissa > 0 ==> Some(b.book_yield) == crate::decimal::dec_div(s.year, s.capital)
            &&& s.capital.mantissa <= 0 ==> b.book_yield == dec_of_int(0)
        }),
    decreases ps.len(),
{
    if ps.len() > 0 {
        law_book_yield_is_weighted_zero(ps.drop_last(), today);
    }
}

/// The yield slot stays zero through the sums.
proof fn law_book_yield_is_weighted_zero(ps: Seq<Position>, today: Date)
    ensures
        book_sums(ps, today) matches Some(s) ==> s.book_yield == dec_of_int(0),
    decreases ps.len(),
{
    if ps.len() > 0 {
        law_book_yield_is_weighted_zero(ps.drop_last(), today);
    }
}

/// Tab then Shift-Tab (and the other way round) returns focus to the same field.
pub proof fn law_focus_moves_are_inverse(f: Field)
    ensures
        prev_field(next_field(f)) == f,
        next_field(prev_field(f)) == f,
{
}

/// Six Tabs go round the whole form.
pub proof fn law_focus_cycles_through_six_fields(f: Field)
    ensures
        next_field(next_field(next_field(next_field(next_field(next_field(f)))))) == f,
{
}

/// Cycling the kind forward then backward returns it; three steps go round.
pub proof fn law_kind_cycle(k: Kind)
    ensures
        cycled_kind(cycled_kind(k, true), false) == k,
        cycled_kind(cycled_kind(k, false), true) == k,
        cycled_kind(cycled_kind(cycled_kind(k, true), true), true) == k,
{
}

/// Toggling the currency twice returns it, for the two currencies the form offers.
pub proof fn law_currency_toggle_twice(c: Seq<char>)
    requires
        c == "EUR"@ || c == "USD"@,
    ensures
        toggled_currency(toggled_currency(c)) == c,
{
    reveal_strlit("EUR");
    reveal_strlit("USD");
}

/// The text without its commas.
pub open spec fn without_commas(s: Seq<char>) -> Seq<char>
    decreases s.len(),
{
    if s.len() == 0 {
        s
    } else if s.last() == ',' {
        without_commas(s.drop_last())
    } else {
        without_commas(s.drop_last()).push(s.last())
    }
}

proof fn lemma_without_commas_append(a: Seq<char>, b: Seq<char>)
    ensures
        without_commas(a + b) == without_commas(a) + without_commas(b),
    decreases b.len(),
{
    if b.len() == 0 {
        assert(a + b =~= a);
        assert(without_commas(a) + without_commas(b) =~= without_commas(a));
    } else {
        assert((a + b).drop_last() =~= a + b.drop_last());
        assert((a + b).last() == b.last());
        lemma_without_commas_append(a, b.drop_last());
        if b.last() == ',' {
        } else {
            assert(without_commas(a) + without_commas(b.drop_last()).push(b.last())
                =~= (without_commas(a) + without_commas(b.drop_last())).push(b.last()));
        }
    }
}

proof fn lemma_grouped_prefix_keeps_digits(s: Seq<char>, k: nat, total: nat)
    requires
        k <= s.len(),
        forall|i: int| 0 <= i < s.len() ==> s[i] != ',',
    ensures
        without_commas(grouped_prefix(s, k, total)) == s.take(k as int),
    decreases k,
{
    if k == 0 {
        assert(s.take(0) =~= Seq::<char>::empty());
    } else {
        lemma_grouped_prefix_keeps_digits(s, (k - 1) as nat, total);
        let piece = grouped_piece(s[k - 1], bytes_len(s.take(k - 1)), total);
        lemma_without_commas_append(grouped_prefix(s, (k - 1) as nat, total), piece);
        let c = s[k - 1];
        let one = seq![c];
        assert(s[k - 1] != ',');
        assert(one.drop_last() =~= Seq::<char>::empty());
        assert(one.last() == c);
        assert(without_commas(Seq::<char>::empty()) =~= Seq::<char>::empty());
        assert(without_commas(one) =~= Seq::<char>::empty().push(c));
        assert(without_commas(one) =~= one);
        let two = seq![',', c];
        assert(two.drop_last() =~= seq![',']);
        assert(seq![','].drop_last() =~= Seq::<char>::empty());
        assert(seq![','].last() == ',');
        assert(two.last() == c);
        assert(without_commas(seq![',']) =~= Seq::<char>::empty());
        assert(without_commas(two) =~= one);
        assert(s.take(k as int) =~= s.take(k - 1).push(c));
    }
}

/// Grouping thousands only inserts commas: taking them out gives the digits back.
pub proof fn law_grouping_keeps_digits(digits: Seq<char>)
    requires
        forall|i: int| 0 <= i < digits.len() ==> digits[i] != ',',
    ensures
        without_commas(group_thousands_spec(digits)) == digits,
{
    lemma_grouped_prefix_keeps_digits(digits, digits.len(), bytes_len(digits));
    assert(digits.take(digits.len() as int) =~= digits);
}

/// A name is required: a form whose name is empty or only whitespace is
/// refused with "name is required", and any other name passes that check.
pub proof fn law_blank_name_is_refused(s: OverlayState)
    ensures
        all_white_space(s.name@) ==> validate_spec(s) == Err::<(DecV, DecV), Seq<char>>("name is required"@),
        !all_white_space(s.name@) ==> trimmed(s.name@).len() > 0,
{
    lemma_trimmed_empty(s.name@);
}

/// Where both read the same latest-rates answer, the board and the quote agree
/// on the date and on the USD rate.
pub proof fn law_board_agrees_with_quote(body: Seq<char>)
    requires
        parse_quote_spec(body) is Ok,
        parse_board_spec(body) is Ok,
    ensures
        parse_board_spec(body)->Ok_0.usd == Some(parse_quote_spec(body)->Ok_0.rate),
        parse_board_spec(body)->Ok_0.date == Some(parse_quote_spec(body)->Ok_0.date),
{
}

/// Every key keeps the selection within the book (or empty).
pub proof fn law_keys_keep_selection_valid(old: App, new: App, key: KeyEvent, quit: bool)
    requires
        selection_valid(old),
        App::handle_key_spec(old, new, key, quit),
    ensures
        selection_valid(new),
{
    if old.overlay is None {
        if let crate::ui::KeyCode::Char(c) = key.code {
            if c == 'd' {
                match old.selected {
                    Some(i) => {
                        if i < old.book.positions.len() && old.armed() {
                            assert(new.book.positions@.len() == old.book.positions@.len() - 1);
                        }
                    },
                    None => {},
                }
            }
        }
    }
}

/// Completing a submission with a fetched quote keeps the selection within the book.
pub proof fn law_quote_keeps_selection_valid(old: App, new: App, fetched: Result<crate::fx::FxQuote, String>)
    requires
        selection_valid(old),
        App::quoted_spec(old, new, fetched),
    ensures
        selection_valid(new),
{
}

/// The first `d` press never removes a position; only the second does.
pub proof fn law_first_delete_press_removes_nothing(old: App, new: App)
    requires
        !old.armed(),
        App::delete_spec(old, new),
    ensures
        new.book == old.book,
        !new.dirty || old.dirty,
{
}

/// Whenever a key changes the positions, the book is marked to be saved.
pub proof fn law_changes_are_marked_for_saving(old: App, new: App, key: KeyEvent, quit: bool)
    requires
        App::handle_key_spec(old, new, key, quit),
        new.book.positions@ != old.book.positions@,
    ensures
        new.dirty,
{
}

/// A fetched quote that changes the positions marks the book to be saved.
pub proof fn law_quoted_changes_are_marked_for_saving(old: App, new: App, fetched: Result<crate::fx::FxQuote, String>)
    requires
        App::quoted_spec(old, new, fetched),
        new.book.positions@ != old.book.positions@,
    ensures
        new.dirty,
{
}

/// While the form is open, no key quits the application.
pub proof fn law_open_form_never_quits(old: App, new: App, key: KeyEvent, quit: bool)
    requires
        old.overlay is Some,
        App::handle_key_spec(old, new, key, quit),
    ensures
        !quit,
{
}

/// Esc on the form closes it without touching the book.
pub proof fn law_escape_discards_the_form(old: App, new: App, quit: bool)
    requires
        old.overlay is Some,
        App::handle_key_spec(old, new, KeyEvent { code: crate::ui::KeyCode::Esc, control_or_alt: false }, quit),
    ensures
        new.overlay is None,
        new.book == old.book,
        new.dirty == old.dirty,
{
}


/// A deposit with no start date, or one that does not parse, stays at its
/// nominal whatever else it carries (a maturity date included).
pub proof fn law_deposit_without_start_date_is_nominal(p: Position, today: Date)
    requires
        p.start_date is None || (p.start_date matches Some(s) && ymd_parse(s@) is None),
    ensures
        current_value_spec(p, today) == Some(p.principal_usd@),
{
}

/// No text comes before itself.
proof fn lemma_chars_lt_irreflexive(a: Seq<char>)
    ensures
        !chars_lt(a, a),
    decreases a.len(),
{
    if a.len() > 0 {
        lemma_chars_lt_irreflexive(a.drop_first());
    }
}

/// The order of texts is transitive.
proof fn lemma_chars_lt_transitive(a: Seq<char>, b: Seq<char>, c: Seq<char>)
    requires
        chars_lt(a, b),
        chars_lt(b, c),
    ensures
        chars_lt(a, c),
    decreases a.len(),
{
    if a.len() > 0 && b.len() > 0 && c.len() > 0 && a[0] == b[0] && b[0] == c[0] {
        lemma_chars_lt_transitive(a.drop_first(), b.drop_first(), c.drop_first());
    }
}

/// A series board compares each rate on the latest date with the rate of the
/// same currency on the date just before it: `latest` is the greatest date
/// under `rates`, `prev` the greatest below it; the board is dated `latest`,
/// shows the rates of `latest`, and takes both its USD and its JPY change
/// from `prev` to `latest`.
pub proof fn law_series_changes_are_day_over_day(
    body: Seq<char>,
    days: Seq<Seq<char>>,
    latest: Seq<char>,
    prev: Seq<char>,
)
    requires
        parse_series_spec(body) matches Some(Ok(_)),
        node_at(body, seq!["rates"@]) matches NodeV::Object(ks, _) && ks == days,
        keys_ascending(days),
        days.contains(latest),
        days.contains(prev),
        chars_lt(prev, latest),
        forall|i: int| 0 <= i < days.len() ==> days[i] == latest || days[i] == prev || chars_lt(#[trigger] days[i], prev),
    ensures
        ({
            let b = parse_series_spec(body)->0->Ok_0;
            &&& b.date == Some(latest)
            &&& Ok::<Option<DecV>, Seq<char>>(b.usd) == day_rate(body, latest, "USD"@)
            &&& Ok::<Option<DecV>, Seq<char>>(b.jpy) == day_rate(body, latest, "JPY"@)
            &&& Some(b.usd_pct) == zip_pct(day_rate(body, latest, "USD"@)->Ok_0, day_rate(body, prev, "USD"@)->Ok_0)
            &&& Some(b.jpy_pct) == zip_pct(day_rate(body, latest, "JPY"@)->Ok_0, day_rate(body, prev, "JPY"@)->Ok_0)
        }),
{
    let n = days.len();
    lemma_chars_lt_irreflexive(latest);
    lemma_chars_lt_irreflexive(prev);
    let jl = choose|j: int| 0 <= j < n && days[j] == latest;
    let jp = choose|j: int| 0 <= j < n && days[j] == prev;
    assert(jl != jp);
    // the latest date stands last
    assert(days[n - 1] == latest) by {
        if jl < n - 1 {
            assert(chars_lt(days[jl], days[n - 1]));
            if days[n - 1] == prev {
                lemma_chars_lt_transitive(latest, prev, latest);
            } else if days[n - 1] != latest {
                assert(chars_lt(days[n - 1], prev));
                lemma_chars_lt_transitive(latest, days[n - 1], prev);
                lemma_chars_lt_transitive(latest, prev, latest);
            }
        }
    }
    assert(n >= 2);
    // and the date before it is `prev`
    assert(days[n - 2] == prev) by {
        assert(chars_lt(days[n - 2], days[n - 1]));
        if days[n - 2] == latest {
        } else if days[n - 2] != prev {
            assert(chars_lt(days[n - 2], prev));
            assert(jp != n - 1);
            if jp < n - 2 {
                assert(chars_lt(days[jp], days[n - 2]));
                lemma_chars_lt_transitive(prev, days[n - 2], prev);
            } else {
                assert(jp == n - 2);
            }
        }
    }
}

/// The PRINCIPAL cell of a book row shows the position's current value (the
/// grown value of a deposit), not the nominal that was entered; beside it
/// stand the name, the yield in percent, and the day, week, month and year
/// interest of the row.
pub proof fn law_principal_cell_shows_current_value(index: usize, p: Position, today: Date)
    requires
        row_spec(p, today) is Some,
    ensures
        row_cells_spec(index, p, today).len() == 10,
        row_cells_spec(index, p, today)[2] == p.name@,
        row_cells_spec(index, p, today)[3] == fmt_money_spec(current_value_spec(p, today)->0),
        row_cells_spec(index, p, today)[4] == fmt_2dp_spec(p.yield_pct@).push('%'),
        row_cells_spec(index, p, today)[6] == fmt_money_spec(row_spec(p, today)->0.day),
        row_cells_spec(index, p, today)[7] == fmt_money_spec(row_spec(p, today)->0.week),
        row_cells_spec(index, p, today)[8] == fmt_money_spec(row_spec(p, today)->0.month),
        row_cells_spec(index, p, today)[9] == fmt_money_spec(row_spec(p, today)->0.year),
{
}

/// The YIELD item of the totals bar is the capital-weighted yield in percent:
/// the fraction `book_yield` times 100, with two places and a `%`; CAPITAL and
/// YEAR show the book's capital and yearly interest.
pub proof fn law_yield_item_is_percent(t: crate::calc::BookV, pct: DecV)
    requires
        dec_mul(t.book_yield, dec_of_int(100)) == Some(pct),
    ensures
        kpi_spec(t).len() == 6,
        kpi_spec(t)[0] == ("CAPITAL"@, fmt_money_spec(t.capital)),
        kpi_spec(t)[1] == ("YIELD"@, fmt_2dp_spec(pct).push('%')),
        kpi_spec(t)[5] == ("YEAR"@, fmt_money_spec(t.year)),
{
}

/// The second `d` press removes exactly the selected position: the positions
/// before it stay where they are, those after it move up by one, the message
/// names the removed one, and the selection stays on the same row or, past
/// the end, on the new last row.
pub proof fn law_second_delete_removes_the_selected_position(old: App, new: App, i: usize)
    requires
        old.selected == Some(i),
        i < old.book.positions.len(),
        old.armed(),
        App::delete_spec(old, new),
    ensures
        new.book.positions.len() == old.book.positions.len() - 1,
        forall|k: int| 0 <= k < i ==> new.book.positions@[k] == old.book.positions@[k],
        forall|k: int| i <= k < new.book.positions.len() ==> new.book.positions@[k] == old.book.positions@[k + 1],
        new.message matches Some(m) && m@ == quoted_msg("deleted "@, old.book.positions@[i as int].name@),
        new.selected == (if old.book.positions.len() == 1 {
            None
        } else if i + 1 < old.book.positions.len() {
            Some(i)
        } else {
            Some((i - 1) as usize)
        }),
{
}

} // verus!
