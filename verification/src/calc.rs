//! Current values and interest projections of positions and of the whole book.
//!
//! Deposits grow with daily compounding, `principal * (1 + yield/100/365)^n`,
//! where `n` counts whole days from the start date to today; every other kind
//! stays at its nominal. All arithmetic is exact decimal arithmetic.

use vstd::prelude::*;
use vstd::arithmetic::power::{pow, lemma_pow_adds, lemma_pow0, lemma_pow1, lemma_pow_positive};
use crate::decimal::{
    Dec, DecV, dec_add, dec_mul, dec_div, dec_of_int, opt_dec_view, dec_le, dec_at_least_one,
    lemma_dec_le_trans, dec_wf, dec_same_value, dec_exact_product, dec_is_quotient, mul_facts,
    div_facts, MAX_MANTISSA, MAX_SCALE,
};
use crate::date::{Date, ymd_parse};
use crate::model::{Kind, Position};

verus! {

/// Yearly, monthly, weekly and daily interest of one position.
pub struct RowCalc {
    pub year: Dec,
    pub month: Dec,
    pub week: Dec,
    pub day: Dec,
}

/// Totals over the book: capital, the capital-weighted yield (as a fraction,
/// not a percentage) and the summed interest projections.
pub struct BookCalc {
    pub capital: Dec,
    pub book_yield: Dec,
    pub year: Dec,
    pub month: Dec,
    pub week: Dec,
    pub day: Dec,
}

/// The model of a `RowCalc`.
pub struct RowV {
    pub year: DecV,
    pub month: DecV,
    pub week: DecV,
    pub day: DecV,
}

/// The model of a `BookCalc`.
pub struct BookV {
    pub capital: DecV,
    pub book_yield: DecV,
    pub year: DecV,
    pub month: DecV,
    pub week: DecV,
    pub day: DecV,
}

impl View for RowCalc {
    type V = RowV;

    open spec fn view(&self) -> RowV {
        RowV { year: self.year@, month: self.month@, week: self.week@, day: self.day@ }
    }
}

impl View for BookCalc {
    type V = BookV;

    open spec fn view(&self) -> BookV {
        BookV {
            capital: self.capital@,
            book_yield: self.book_yield@,
            year: self.year@,
            month: self.month@,
            week: self.week@,
            day: self.day@,
        }
    }
}

/// A division after a step that may have failed: `None` if either fails.
pub open spec fn then_div(a: Option<DecV>, b: DecV) -> Option<DecV> {
    match a {
        Some(x) => dec_div(x, b),
        None => None,
    }
}

/// The daily growth factor `1 + yield/100/365`.
pub open spec fn daily_factor(yield_pct: DecV) -> Option<DecV> {
    match then_div(dec_div(yield_pct, dec_of_int(100)), dec_of_int(365)) {
        Some(d) => dec_add(dec_of_int(1), d),
        None => None,
    }
}

/// `value` multiplied `n` times by `factor`, one step after the other.
pub open spec fn compound(value: DecV, factor: DecV, n: nat) -> Option<DecV>
    decreases n,
{
    if n == 0 {
        Some(value)
    } else {
        match compound(value, factor, (n - 1) as nat) {
            Some(v) => dec_mul(v, factor),
            None => None,
        }
    }
}

/// The day count of the position's start date, where it has one that parses.
pub open spec fn start_days(p: Position) -> Option<int> {
    match p.start_date {
        Some(s) => ymd_parse(s@),
        None => None,
    }
}

/// The value of a position today; `None` where a decimal operation of the compounding overflows.
pub open spec fn current_value_spec(p: Position, today: Date) -> Option<DecV> {
    if p.kind != Kind::Deposit {
        Some(p.principal_usd@)
    } else {
        match start_days(p) {
            None => Some(p.principal_usd@),
            Some(s) => {
                let n = today.spec_days() - s;
                if n <= 0 {
                    Some(p.principal_usd@)
                } else {
                    match daily_factor(p.yield_pct@) {
                        Some(f) => compound(p.principal_usd@, f, n as nat),
                        None => None,
                    }
                }
            },
        }
    }
}

/// The interest projections of a position: `year = value * yield / 100`, and
/// month, week and day are `year` over 12, 52 and 365.
pub open spec fn row_spec(p: Position, today: Date) -> Option<RowV> {
    match current_value_spec(p, today) {
        None => None,
        Some(v) => match then_div(dec_mul(v, p.yield_pct@), dec_of_int(100)) {
            None => None,
            Some(year) => match (
                dec_div(year, dec_of_int(12)),
                dec_div(year, dec_of_int(52)),
                dec_div(year, dec_of_int(365)),
            ) {
                (Some(month), Some(week), Some(day)) => Some(
                    RowV { year, month, week, day },
                ),
                _ => None,
            },
        },
    }
}

pub open spec fn zero_totals() -> BookV {
    BookV {
        capital: dec_of_int(0),
        book_yield: dec_of_int(0),
        year: dec_of_int(0),
        month: dec_of_int(0),
        week: dec_of_int(0),
        day: dec_of_int(0),
    }
}

/// The totals after adding one position's value and row to `acc`.
pub open spec fn add_position(acc: BookV, value: DecV, r: RowV) -> Option<BookV> {
    match (
        dec_add(acc.capital, value),
        dec_add(acc.year, r.year),
        dec_add(acc.month, r.month),
        dec_add(acc.week, r.week),
        dec_add(acc.day, r.day),
    ) {
        (Some(capital), Some(year), Some(month), Some(week), Some(day)) => Some(
            BookV { capital, book_yield: acc.book_yield, year, month, week, day },
        ),
        _ => None,
    }
}

/// The sums over `ps`, in order, before the yield is taken.
pub open spec fn book_sums(ps: Seq<Position>, today: Date) -> Option<BookV>
    decreases ps.len(),
{
    if ps.len() == 0 {
        Some(zero_totals())
    } else {
        match book_sums(ps.drop_last(), today) {
            None => None,
            Some(acc) => match (row_spec(ps.last(), today), current_value_spec(ps.last(), today)) {
                (Some(r), Some(v)) => add_position(acc, v, r),
                _ => None,
            },
        }
    }
}

/// The book totals: the sums, and the yield `year / capital` where the capital
/// is above zero (zero otherwise).
pub open spec fn book_spec(ps: Seq<Position>, today: Date) -> Option<BookV> {
    match book_sums(ps, today) {
        None => None,
        Some(s) => if s.capital.mantissa > 0 {
            match dec_div(s.year, s.capital) {
                Some(y) => Some(BookV { book_yield: y, ..s }),
                None => None,
            }
        } else {
            Some(s)
        },
    }
}

pub open spec fn opt_row_view(o: Option<RowCalc>) -> Option<RowV> {
    match o {
        Some(r) => Some(r@),
        None => None,
    }
}

pub open spec fn opt_book_view(o: Option<BookCalc>) -> Option<BookV> {
    match o {
        Some(b) => Some(b@),
        None => None,
    }
}

/// The daily growth factor, `1 + yield_pct / 100 / 365`, each step checked;
/// one or more for a yield of zero or more.
fn checked_daily_factor(yield_pct: &Dec) -> (r: Option<Dec>)
    ensures
        opt_dec_view(r) == daily_factor(yield_pct@),
        r matches Some(f) ==> (yield_pct@.mantissa >= 0 ==> dec_at_least_one(f@)),
{
    let a = match yield_pct.checked_div(&Dec::from_int(100)) {
        Some(a) => a,
        None => return None,
    };
    let b = match a.checked_div(&Dec::from_int(365)) {
        Some(b) => b,
        None => return None,
    };
    let one = Dec::from_int(1);
    let r = one.checked_add(&b);
    proof {
        vstd::arithmetic::power::lemma_pow0(10);
        if yield_pct@.mantissa >= 0 {
            assert(a@.mantissa >= 0);
            assert(b@.mantissa >= 0);
            if let Some(f) = r {
                assert(dec_le(one@, f@));
                assert(f@.mantissa * pow(10, 0) == f@.mantissa);
            }
        }
    }
    r
}

/// A deposit that cannot shrink: a principal and a yield of zero or more.
pub open spec fn grows_from_nominal(p: Position) -> bool {
    &&& p.kind == Kind::Deposit
    &&& p.principal_usd@.mantissa >= 0
    &&& p.yield_pct@.mantissa >= 0
}

/// `v`, the value of `p` on `today`, is at least the nominal, and at least
/// the value on every earlier day.
pub open spec fn value_grows_to(p: Position, today: Date, v: DecV) -> bool {
    &&& dec_le(p.principal_usd@, v)
    &&& forall|t: Date| t.spec_days() <= today.spec_days()
        ==> (#[trigger] current_value_spec(p, t) matches Some(w) && dec_le(w, v))
}

/// The value of a position today, or `None` where the compounding overflows.
fn checked_current_value(p: &Position, today: &Date) -> (r: Option<Dec>)
    ensures
        opt_dec_view(r) == current_value_spec(*p, *today),
        r matches Some(v) ==> (grows_from_nominal(*p) ==> value_grows_to(*p, *today, v@)),
{
    if p.kind != Kind::Deposit {
        return Some(p.principal_usd);
    }
    let start = match &p.start_date {
        Some(s) => Date::parse_ymd(s.as_str()),
        None => None,
    };
    let start = match start {
        Some(s) => s,
        None => return Some(p.principal_usd),
    };
    let n = today.days_since(&start);
    if n <= 0 {
        return Some(p.principal_usd);
    }
    let factor = match checked_daily_factor(&p.yield_pct) {
        Some(f) => f,
        None => return None,
    };
    let ghost grows = grows_from_nominal(*p);
    let mut value = p.principal_usd;
    let mut i: i64 = 0;
    while i < n
        invariant
            0 <= i <= n,
            compound(p.principal_usd@, factor@, i as nat) == Some(value@),
            grows ==> grows_from_nominal(*p) && dec_at_least_one(factor@) && value@.mantissa >= 0,
            grows ==> forall|k: nat| k <= i ==> (#[trigger] compound(p.principal_usd@, factor@, k) matches Some(w)
                && dec_le(w, value@)),
        ensures
            (i == n && compound(p.principal_usd@, factor@, n as nat) == Some(value@))
                || (i < n && compound(p.principal_usd@, factor@, n as nat) is None),
            grows ==> forall|k: nat| k <= i ==> (#[trigger] compound(p.principal_usd@, factor@, k) matches Some(w)
                && dec_le(w, value@)),
        decreases n - i,
    {
        match value.checked_mul(&factor) {
            Some(v) => {
                proof {
                    if grows {
                        assert forall|k: nat| k <= i + 1 implies (#[trigger] compound(p.principal_usd@, factor@, k) matches Some(w)
                            && dec_le(w, v@)) by {
                            if k <= i {
                                let w = compound(p.principal_usd@, factor@, k)->0;
                                lemma_dec_le_trans(w, value@, v@);
                            } else {
                                assert(k == i + 1);
                                assert(compound(p.principal_usd@, factor@, k) == Some(v@));
                            }
                        }
                    }
                }
                value = v;
            },
            None => {
                proof {
                    lemma_compound_none_stays(p.principal_usd@, factor@, (i + 1) as nat, n as nat);
                }
                break;
            },
        }
        i = i + 1;
    }
    if i < n {
        return None;
    }
    Some(value)
}

/// Once compounding fails, every longer compounding fails too.
proof fn lemma_compound_none_stays(value: DecV, factor: DecV, i: nat, n: nat)
    requires
        i <= n,
        compound(value, factor, i) is None,
    ensures
        compound(value, factor, n) is None,
    decreases n - i,
{
    if i < n {
        lemma_compound_none_stays(value, factor, i + 1, n);
    }
}

/// The value of a position today: a deposit with a start date that parses
/// and lies before today has compounded daily since then; every other
/// position is worth its nominal. A deposit of a principal and a yield of
/// zero or more is worth at least its nominal and at least what it was worth
/// on any earlier day.
pub fn current_value(p: &Position, today: &Date) -> (r: Dec)
    requires
        current_value_spec(*p, *today) is Some,
    ensures
        r@ == current_value_spec(*p, *today)->0,
        grows_from_nominal(*p) ==> value_grows_to(*p, *today, r@),
{
    match checked_current_value(p, today) {
        Some(v) => v,
        None => unreached(),
    }
}

/// `current_value` where it does not overflow; `None` where it would.
pub fn try_current_value(p: &Position, today: &Date) -> (r: Option<Dec>)
    ensures
        opt_dec_view(r) == current_value_spec(*p, *today),
        r matches Some(v) ==> (grows_from_nominal(*p) ==> value_grows_to(*p, *today, v@)),
{
    match checked_current_value(p, today) {
        Some(_) => Some(current_value(p, today)),
        None => None,
    }
}

/// What the decimal operations of a row show where it is computed: the
/// product `value * yield` and the quotient of that by 100.
pub open spec fn row_facts(p: Position, today: Date) -> bool {
    let v = current_value_spec(p, today)->0;
    let t = dec_mul(v, p.yield_pct@);
    &&& dec_wf(v)
    &&& dec_wf(p.yield_pct@)
    &&& mul_facts(v, p.yield_pct@, t)
    &&& div_facts(t->0, dec_of_int(100), dec_div(t->0, dec_of_int(100)))
}

fn checked_row(p: &Position, today: &Date) -> (r: Option<RowCalc>)
    ensures
        opt_row_view(r) == row_spec(*p, *today),
        r is Some ==> row_facts(*p, *today),
{
    let v = match checked_current_value(p, today) {
        Some(v) => v,
        None => return None,
    };
    let t = match v.checked_mul(&p.yield_pct) {
        Some(t) => t,
        None => return None,
    };
    let year = match t.checked_div(&Dec::from_int(100)) {
        Some(y) => y,
        None => return None,
    };
    let month = year.checked_div(&Dec::from_int(12));
    let week = year.checked_div(&Dec::from_int(52));
    let day = year.checked_div(&Dec::from_int(365));
    match (month, week, day) {
        (Some(month), Some(week), Some(day)) => Some(RowCalc { year, month, week, day }),
        _ => None,
    }
}

/// The interest projections of one position, off its current (grown) value.
pub fn row(p: &Position, today: &Date) -> (r: RowCalc)
    requires
        row_spec(*p, *today) is Some,
    ensures
        r@ == row_spec(*p, *today)->0,
{
    match checked_row(p, today) {
        Some(r) => r,
        None => unreached(),
    }
}

/// `row` where it does not overflow; `None` where it would.
pub fn try_row(p: &Position, today: &Date) -> (r: Option<RowCalc>)
    ensures
        opt_row_view(r) == row_spec(*p, *today),
{
    match checked_row(p, today) {
        Some(_) => Some(row(p, today)),
        None => None,
    }
}

/// The yield as a fraction, `yield_pct / 100`, written with two more places.
pub open spec fn yield_fraction(y: DecV) -> DecV {
    DecV { mantissa: y.mantissa, negative: y.negative, scale: y.scale + 2 }
}

/// A position whose row rounds nowhere: its value today is above zero, and
/// `value * yield / 100` has at most 28 places and a mantissa of at most 2^96 - 1.
pub open spec fn one_row_exact(p: Position, today: Date) -> bool {
    &&& current_value_spec(p, today) is Some
    &&& current_value_spec(p, today)->0.mantissa > 0
    &&& current_value_spec(p, today)->0.scale + p.yield_pct@.scale + 2 <= MAX_SCALE
    &&& -MAX_MANTISSA <= current_value_spec(p, today)->0.mantissa * p.yield_pct@.mantissa <= MAX_MANTISSA
}

/// With one position whose row rounds nowhere, `year / capital` is the yield over 100.
proof fn lemma_one_row_yield(p: Position, today: Date, by: DecV)
    requires
        one_row_exact(p, today),
        row_facts(p, today),
        row_spec(p, today) is Some,
        div_facts(row_spec(p, today)->0.year, current_value_spec(p, today)->0, Some(by)),
    ensures
        dec_same_value(by, yield_fraction(p.yield_pct@)),
{
    let v = current_value_spec(p, today)->0;
    let y = p.yield_pct@;
    let t = dec_mul(v, y)->0;
    let year = row_spec(p, today)->0.year;
    let hundred = dec_of_int(100);
    assert(dec_mul(v, y) is Some);
    assert(dec_div(t, hundred) == Some(year));
    let pr = dec_exact_product(v, y);
    assert(dec_same_value(t, pr));
    let q1 = DecV { mantissa: pr.mantissa, negative: y.negative, scale: pr.scale + 2 };
    let vm = v.mantissa;
    let ym = y.mantissa;
    assert(!v.negative);
    assert(vm * ym < 0 ==> ym < 0) by (nonlinear_arith)
        requires
            vm > 0,
    ;
    assert(vm * ym > 0 ==> ym > 0) by (nonlinear_arith)
        requires
            vm > 0,
    ;
    assert(dec_wf(q1));
    lemma_pow_adds(10, pr.scale, 2);
    vstd::arithmetic::power::lemma_square_is_pow2(10);
    lemma_pow0(10);
    let pt = pow(10, t.scale);
    let pp = pow(10, pr.scale);
    assert(pow(10, q1.scale) == pp * 100);
    assert(q1.mantissa * hundred.mantissa * pt == t.mantissa * pow(10, hundred.scale) * pow(10, q1.scale))
        by (nonlinear_arith)
        requires
            t.mantissa * pp == pr.mantissa * pt,
            q1.mantissa == pr.mantissa,
            hundred.mantissa == 100,
            pow(10, hundred.scale) == 1,
            pow(10, q1.scale) == pp * 100,
    ;
    assert(dec_is_quotient(q1, t, hundred));
    assert(dec_same_value(year, q1));
    let q2 = yield_fraction(y);
    assert(dec_wf(q2));
    lemma_pow_adds(10, v.scale, (y.scale + 2) as nat);
    assert(q1.scale == v.scale + (y.scale + 2));
    let py = pow(10, year.scale);
    assert(q2.mantissa * v.mantissa * py == year.mantissa * pow(10, v.scale) * pow(10, q2.scale))
        by (nonlinear_arith)
        requires
            year.mantissa * pow(10, q1.scale) == q1.mantissa * py,
            q1.mantissa == vm * ym,
            q2.mantissa == ym,
            v.mantissa == vm,
            pow(10, q1.scale) == pow(10, v.scale) * pow(10, q2.scale),
    ;
    assert(dec_is_quotient(q2, year, v));
}

fn checked_book(positions: &[Position], today: &Date) -> (r: Option<BookCalc>)
    ensures
        opt_book_view(r) == book_spec(positions@, *today),
        r matches Some(b) ==> (positions@.len() == 1 && one_row_exact(positions@[0], *today)
            ==> dec_same_value(b@.book_yield, yield_fraction(positions@[0].yield_pct@))),
{
    let mut c = BookCalc {
        capital: Dec::zero(),
        book_yield: Dec::zero(),
        year: Dec::zero(),
        month: Dec::zero(),
        week: Dec::zero(),
        day: Dec::zero(),
    };
    let mut i: usize = 0;
    while i < positions.len()
        invariant
            i <= positions@.len(),
            book_sums(positions@.subrange(0, i as int), *today) == Some(c@),
            positions@.len() == 1 && i == 1 ==> ({
                &&& row_facts(positions@[0], *today)
                &&& row_spec(positions@[0], *today) is Some
                &&& c@.capital == current_value_spec(positions@[0], *today)->0
                &&& c@.year == row_spec(positions@[0], *today)->0.year
            }),
        decreases positions@.len() - i,
    {
        let p = &positions[i];
        proof {
            assert(positions@.subrange(0, i + 1).drop_last() =~= positions@.subrange(0, i as int));
            assert(positions@.subrange(0, i + 1).last() == positions@[i as int]);
        }
        let r = match checked_row(p, today) {
            Some(r) => r,
            None => {
                proof {
                    lemma_sums_none_stays(positions@, *today, i as nat + 1);
                }
                return None;
            },
        };
        let v = match checked_current_value(p, today) {
            Some(v) => v,
            None => {
                proof {
                    lemma_sums_none_stays(positions@, *today, i as nat + 1);
                }
                return None;
            },
        };
        let sums = (
            c.capital.checked_add(&v),
            c.year.checked_add(&r.year),
            c.month.checked_add(&r.month),
            c.week.checked_add(&r.week),
            c.day.checked_add(&r.day),
        );
        match sums {
            (Some(capital), Some(year), Some(month), Some(week), Some(day)) => {
                c = BookCalc { capital, book_yield: c.book_yield, year, month, week, day };
            },
            _ => {
                proof {
                    lemma_sums_none_stays(positions@, *today, i as nat + 1);
                }
                return None;
            },
        }
        i = i + 1;
    }
    proof {
        assert(positions@.subrange(0, positions@.len() as int) =~= positions@);
    }
    if c.capital.is_above_zero() {
        match c.year.checked_div(&c.capital) {
            Some(y) => {
                proof {
                    if positions@.len() == 1 && one_row_exact(positions@[0], *today) {
                        lemma_one_row_yield(positions@[0], *today, y@);
                    }
                }
                c.book_yield = y;
            },
            None => return None,
        }
    }
    Some(c)
}

/// Once the sums over a prefix fail, the sums over every longer prefix fail.
proof fn lemma_sums_none_stays(ps: Seq<Position>, today: Date, k: nat)
    requires
        k <= ps.len(),
        book_sums(ps.subrange(0, k as int), today) is None,
    ensures
        book_sums(ps, today) is None,
    decreases ps.len() - k,
{
    if k < ps.len() {
        assert(ps.subrange(0, k + 1 as int).drop_last() =~= ps.subrange(0, k as int));
        lemma_sums_none_stays(ps, today, k + 1);
    } else {
        assert(ps.subrange(0, k as int) =~= ps);
    }
}

/// The totals of the book: capital is the sum of current values, the
/// projections are the sums of the rows, and the yield is `year / capital`
/// where the capital is above zero, zero otherwise. A book of one position
/// whose row rounds nowhere has that position's yield over 100 as its yield.
pub fn book(positions: &[Position], today: &Date) -> (r: BookCalc)
    requires
        book_spec(positions@, *today) is Some,
    ensures
        r@ == book_spec(positions@, *today)->0,
        positions@.len() == 1 && one_row_exact(positions@[0], *today)
            ==> dec_same_value(r@.book_yield, yield_fraction(positions@[0].yield_pct@)),
{
    match checked_book(positions, today) {
        Some(b) => b,
        None => unreached(),
    }
}

/// `book` where it does not overflow; `None` where it would.
pub fn try_book(positions: &[Position], today: &Date) -> (r: Option<BookCalc>)
    ensures
        opt_book_view(r) == book_spec(positions@, *today),
        r matches Some(b) ==> (positions@.len() == 1 && one_row_exact(positions@[0], *today)
            ==> dec_same_value(b@.book_yield, yield_fraction(positions@[0].yield_pct@))),
{
    match checked_book(positions, today) {
        Some(_) => Some(book(positions, today)),
        None => None,
    }
}

} // verus!
