//! Exact decimal numbers, carried as the parts that `rust_decimal` keeps:
//! a signed 96-bit mantissa, a sign flag (so that negative zero survives) and
//! a scale of at most 28 decimal places. All arithmetic is done by
//! `rust_decimal` itself; this module only moves values in and out.

use vstd::prelude::*;
use vstd::arithmetic::power::{pow, lemma_pow_positive, lemma_pow0};
use rust_decimal::Decimal;
use rust_decimal::RoundingStrategy;

verus! {

/// The largest magnitude of a mantissa: 2^96 - 1.
pub const MAX_MANTISSA: i128 = 0xFFFF_FFFF_FFFF_FFFF_FFFF_FFFFi128;

/// The largest scale (number of decimal places).
pub const MAX_SCALE: u32 = 28u32;

/// The mathematical model of a decimal: `mantissa / 10^scale`, with the sign
/// flag kept apart so that `-0` and `0` stay distinct, as they are in `rust_decimal`.
pub struct DecV {
    pub mantissa: int,
    pub negative: bool,
    pub scale: nat,
}

/// Every decimal that `rust_decimal` can hold satisfies this.
pub open spec fn dec_wf(v: DecV) -> bool {
    &&& -MAX_MANTISSA <= v.mantissa <= MAX_MANTISSA
    &&& v.scale <= MAX_SCALE
    &&& v.mantissa < 0 ==> v.negative
    &&& v.mantissa > 0 ==> !v.negative
}

/// Numeric equality of two decimals, whatever their scales and signs of zero.
pub open spec fn dec_same_value(a: DecV, b: DecV) -> bool {
    a.mantissa * pow(10, b.scale) == b.mantissa * pow(10, a.scale)
}

/// The model of an integer taken over with scale 0.
pub open spec fn dec_of_int(v: int) -> DecV {
    DecV { mantissa: v, negative: v < 0, scale: 0 }
}

pub open spec fn opt_dec_view(o: Option<Dec>) -> Option<DecV> {
    match o {
        Some(d) => Some(d@),
        None => None,
    }
}

/// What `Decimal::checked_add` returns: `None` where `a + b` overflows.
pub uninterp spec fn dec_add(a: DecV, b: DecV) -> Option<DecV>;

/// What `Decimal::checked_sub` returns: `None` where `a - b` overflows.
pub uninterp spec fn dec_sub(a: DecV, b: DecV) -> Option<DecV>;

/// What `Decimal::checked_mul` returns: `None` where `a * b` overflows.
pub uninterp spec fn dec_mul(a: DecV, b: DecV) -> Option<DecV>;

/// What `Decimal::checked_div` returns: `None` where `a / b` overflows or `b` is zero.
pub uninterp spec fn dec_div(a: DecV, b: DecV) -> Option<DecV>;

/// What `Decimal::round_dp_with_strategy(dp, MidpointAwayFromZero)` returns:
/// the value itself where it has at most `dp` places; otherwise the magnitude
/// cut to `dp` places, plus one unit in the last place where the cut part is
/// at least half of one, with scale `dp`. A zero keeps its sign flag; a value
/// that rounds to zero loses it.
pub open spec fn dec_round_half_away(a: DecV, dp: nat) -> DecV {
    if a.scale <= dp {
        a
    } else if a.mantissa == 0 {
        DecV { mantissa: 0, negative: a.negative, scale: dp }
    } else {
        let unit = pow(10, (a.scale - dp) as nat);
        let magnitude = if a.mantissa < 0 { -a.mantissa } else { a.mantissa };
        let cut = magnitude / unit;
        let rounded = if 2 * (magnitude % unit) >= unit { cut + 1 } else { cut };
        DecV {
            mantissa: if a.negative { -rounded } else { rounded },
            negative: a.negative && rounded != 0,
            scale: dp,
        }
    }
}

/// The decimal digits of `n`, most significant first; none for zero.
pub open spec fn digits_of(n: nat) -> Seq<char>
    decreases n,
{
    if n == 0 {
        Seq::empty()
    } else {
        digits_of(n / 10).push(((n % 10) + 48) as char)
    }
}

/// What `Decimal::to_string` returns: a minus sign where the sign flag is
/// set, then the digits of the mantissa's magnitude, padded with leading
/// zeros to at least `scale` digits, with a point before the last `scale`
/// of them where the scale is not zero; "0" stands for an empty whole part.
pub open spec fn dec_text(a: DecV) -> Seq<char> {
    let magnitude = if a.mantissa < 0 { -a.mantissa } else { a.mantissa };
    let ds = digits_of(magnitude as nat);
    let padded = if ds.len() < a.scale {
        Seq::new((a.scale - ds.len()) as nat, |_i: int| '0') + ds
    } else {
        ds
    };
    let whole = padded.take(padded.len() - a.scale);
    let whole_text = if whole.len() == 0 { seq!['0'] } else { whole };
    let body = if a.scale == 0 {
        whole_text
    } else {
        whole_text + seq!['.'] + padded.skip(padded.len() - a.scale)
    };
    if a.negative { seq!['-'] + body } else { body }
}

/// What `Decimal::from_str_exact` returns; an error is given by its display text.
pub uninterp spec fn dec_parse(s: Seq<char>) -> Result<DecV, Seq<char>>;

/// `a <= b` by numeric value.
pub open spec fn dec_le(a: DecV, b: DecV) -> bool {
    a.mantissa * pow(10, b.scale) <= b.mantissa * pow(10, a.scale)
}

/// One or more by numeric value.
pub open spec fn dec_at_least_one(a: DecV) -> bool {
    a.mantissa >= pow(10, a.scale)
}

/// The exact product of `a` and `b` as `rust_decimal` forms it before any
/// rounding: mantissas multiplied, scales added.
pub open spec fn dec_exact_product(a: DecV, b: DecV) -> DecV {
    DecV { mantissa: a.mantissa * b.mantissa, negative: a.negative != b.negative, scale: a.scale + b.scale }
}

/// `q` has exactly the value `a / b`.
pub open spec fn dec_is_quotient(q: DecV, a: DecV, b: DecV) -> bool {
    q.mantissa * b.mantissa * pow(10, a.scale) == a.mantissa * pow(10, b.scale) * pow(10, q.scale)
}

/// What the source of `Decimal::checked_add` shows of its result `r`: a zero
/// operand on the left gives the right one as it is; and the sum of a whole
/// number and a value, neither below zero, is never below that whole number
/// (the exact sum is rounded to nearest, at a scale of zero or more, where
/// the whole number lies on the grid).
pub open spec fn add_facts(a: DecV, b: DecV, r: Option<DecV>) -> bool {
    &&& a.mantissa == 0 ==> r == Some(b)
    &&& (r matches Some(x) && a.scale == 0 && a.mantissa >= 0 && b.mantissa >= 0) ==> dec_le(a, r->0)
}

/// What the source of `Decimal::checked_mul` shows of its result `r`: where
/// the exact product fits (scale at most 28, mantissa at most 2^96 - 1) it is
/// returned without rounding; and a value of zero or more multiplied by one
/// or more is never made smaller: the exact product is rounded to nearest at
/// the largest scale at which it fits, which either keeps the first operand
/// on the grid or leaves the product at least half a unit above it.
pub open spec fn mul_facts(a: DecV, b: DecV, r: Option<DecV>) -> bool {
    &&& (a.scale + b.scale <= MAX_SCALE && -MAX_MANTISSA <= a.mantissa * b.mantissa <= MAX_MANTISSA)
        ==> (r matches Some(x) && dec_same_value(x, dec_exact_product(a, b)))
    &&& (r matches Some(x) && a.mantissa >= 0 && dec_at_least_one(b)) ==> (r->0.mantissa >= 0 && dec_le(a, r->0))
}

/// What the source of `Decimal::checked_div` shows of its result `r`: the
/// sign is that of the operands' signs combined, so a quotient of values of
/// zero or more is zero or more; and where the exact quotient can be written
/// as a decimal (scale at most 28, mantissa at most 2^96 - 1), the remainder
/// loop reaches it and returns a decimal of that value.
pub open spec fn div_facts(a: DecV, b: DecV, r: Option<DecV>) -> bool {
    &&& (r matches Some(x) && a.mantissa >= 0 && b.mantissa > 0) ==> r->0.mantissa >= 0
    &&& forall|q: DecV| dec_wf(q) && b.mantissa != 0 && #[trigger] dec_is_quotient(q, a, b)
        ==> (r matches Some(x) && dec_same_value(x, q))
}

/// `<=` by value is transitive.
pub proof fn lemma_dec_le_trans(a: DecV, b: DecV, c: DecV)
    requires
        dec_le(a, b),
        dec_le(b, c),
    ensures
        dec_le(a, c),
{
    let pa = pow(10, a.scale);
    let pb = pow(10, b.scale);
    let pc = pow(10, c.scale);
    lemma_pow_positive(10, a.scale);
    lemma_pow_positive(10, b.scale);
    lemma_pow_positive(10, c.scale);
    assert(a.mantissa * pc <= c.mantissa * pa) by (nonlinear_arith)
        requires
            a.mantissa * pb <= b.mantissa * pa,
            b.mantissa * pc <= c.mantissa * pb,
            pa > 0,
            pb > 0,
            pc > 0,
    {
        assert(a.mantissa * pb * pc <= b.mantissa * pa * pc);
        assert(b.mantissa * pc * pa <= c.mantissa * pb * pa);
        assert(a.mantissa * pc * pb <= c.mantissa * pa * pb);
    }
}

/// A character that the text of a decimal is made of: a digit, the point or the minus sign.
pub open spec fn is_decimal_char(c: char) -> bool {
    ('0' <= c && c <= '9') || c == '.' || c == '-'
}

proof fn lemma_digits_are_digits(n: nat)
    ensures
        forall|i: int| 0 <= i < digits_of(n).len() ==> '0' <= #[trigger] digits_of(n)[i] <= '9',
        n > 0 ==> digits_of(n).len() > 0,
    decreases n,
{
    if n > 0 {
        lemma_digits_are_digits(n / 10);
        let c = ((n % 10) + 48) as char;
        assert(48 <= (n % 10) + 48 <= 57);
        assert(c as u32 == (n % 10) + 48);
        assert('0' <= c <= '9');
        let ds = digits_of(n);
        assert(ds == digits_of(n / 10).push(c));
        assert forall|i: int| 0 <= i < ds.len() implies '0' <= #[trigger] ds[i] <= '9' by {
            if i < ds.len() - 1 {
                assert(ds[i] == digits_of(n / 10)[i]);
            }
        }
    }
}

/// The text of a decimal is never empty and holds only digits, the point and the minus sign.
pub proof fn lemma_dec_text_chars(a: DecV)
    ensures
        dec_text(a).len() > 0,
        forall|i: int| 0 <= i < dec_text(a).len() ==> is_decimal_char(#[trigger] dec_text(a)[i]),
        dec_text(a).last() != '-' && dec_text(a).last() != '.',
{
    let magnitude = if a.mantissa < 0 { -a.mantissa } else { a.mantissa };
    let ds = digits_of(magnitude as nat);
    lemma_digits_are_digits(magnitude as nat);
    let padded = if ds.len() < a.scale {
        Seq::new((a.scale - ds.len()) as nat, |_i: int| '0') + ds
    } else {
        ds
    };
    assert forall|i: int| 0 <= i < padded.len() implies '0' <= #[trigger] padded[i] <= '9' by {
        if ds.len() < a.scale {
            let k = (a.scale - ds.len()) as int;
            if i >= k {
                assert(padded[i] == ds[i - k]);
            }
        }
    }
    let whole = padded.take(padded.len() - a.scale);
    let whole_text = if whole.len() == 0 { seq!['0'] } else { whole };
    assert forall|i: int| 0 <= i < whole_text.len() implies '0' <= #[trigger] whole_text[i] <= '9' by {
        if whole.len() != 0 {
            assert(whole_text[i] == padded[i]);
        }
    }
    let frac = padded.skip(padded.len() - a.scale);
    assert forall|i: int| 0 <= i < frac.len() implies '0' <= #[trigger] frac[i] <= '9' by {
        assert(frac[i] == padded[i + padded.len() - a.scale]);
    }
    let body = if a.scale == 0 { whole_text } else { whole_text + seq!['.'] + frac };
    assert(a.scale > 0 ==> frac.len() > 0);
    assert forall|i: int| 0 <= i < body.len() implies is_decimal_char(#[trigger] body[i]) by {
        if a.scale != 0 {
            if i < whole_text.len() {
                assert(body[i] == whole_text[i]);
            } else if i == whole_text.len() {
                assert(body[i] == '.');
            } else {
                assert(body[i] == frac[i - whole_text.len() - 1]);
            }
        }
    }
    assert('0' <= body.last() <= '9') by {
        if a.scale != 0 {
            assert(body.last() == frac.last());
        }
    }
    if a.negative {
        let t = seq!['-'] + body;
        assert(t.last() == body.last());
        assert forall|i: int| 0 <= i < t.len() implies is_decimal_char(#[trigger] t[i]) by {
            if i > 0 {
                assert(t[i] == body[i - 1]);
            }
        }
    }
}

/// An exact decimal number.
#[derive(Clone, Copy, Debug)]
pub struct Dec {
    mantissa: i128,
    negative: bool,
    scale: u32,
}

impl View for Dec {
    type V = DecV;

    closed spec fn view(&self) -> DecV {
        DecV { mantissa: self.mantissa as int, negative: self.negative, scale: self.scale as nat }
    }
}

/// Views of two decimals are equal exactly when the decimals are.
pub broadcast proof fn lemma_dec_view_injective(a: Dec, b: Dec)
    ensures
        #[trigger] (a@) == #[trigger] (b@) <==> a == b,
{
}

#[verifier::external_body]
fn raw_add(a: &Dec, b: &Dec) -> (r: Option<Dec>)
    requires
        dec_wf(a@),
        dec_wf(b@),
    ensures
        opt_dec_view(r) == dec_add(a@, b@),
        r matches Some(x) ==> dec_wf(x@),
        add_facts(a@, b@, opt_dec_view(r)),
{
    let mut x = Decimal::from_i128_with_scale(a.mantissa, a.scale);
    x.set_sign_negative(a.negative);
    let mut y = Decimal::from_i128_with_scale(b.mantissa, b.scale);
    y.set_sign_negative(b.negative);
    match x.checked_add(y) {
        Some(z) => Some(Dec { mantissa: z.mantissa(), negative: z.is_sign_negative(), scale: z.scale() }),
        None => None,
    }
}

#[verifier::external_body]
fn raw_sub(a: &Dec, b: &Dec) -> (r: Option<Dec>)
    requires
        dec_wf(a@),
        dec_wf(b@),
    ensures
        opt_dec_view(r) == dec_sub(a@, b@),
        r matches Some(x) ==> dec_wf(x@),
{
    let mut x = Decimal::from_i128_with_scale(a.mantissa, a.scale);
    x.set_sign_negative(a.negative);
    let mut y = Decimal::from_i128_with_scale(b.mantissa, b.scale);
    y.set_sign_negative(b.negative);
    match x.checked_sub(y) {
        Some(z) => Some(Dec { mantissa: z.mantissa(), negative: z.is_sign_negative(), scale: z.scale() }),
        None => None,
    }
}

#[verifier::external_body]
fn raw_mul(a: &Dec, b: &Dec) -> (r: Option<Dec>)
    requires
        dec_wf(a@),
        dec_wf(b@),
    ensures
        opt_dec_view(r) == dec_mul(a@, b@),
        r matches Some(x) ==> dec_wf(x@),
        mul_facts(a@, b@, opt_dec_view(r)),
{
    let mut x = Decimal::from_i128_with_scale(a.mantissa, a.scale);
    x.set_sign_negative(a.negative);
    let mut y = Decimal::from_i128_with_scale(b.mantissa, b.scale);
    y.set_sign_negative(b.negative);
    match x.checked_mul(y) {
        Some(z) => Some(Dec { mantissa: z.mantissa(), negative: z.is_sign_negative(), scale: z.scale() }),
        None => None,
    }
}

/// `Decimal::checked_div`; its source maps a zero divisor to `None`.
#[verifier::external_body]
fn raw_div(a: &Dec, b: &Dec) -> (r: Option<Dec>)
    requires
        dec_wf(a@),
        dec_wf(b@),
    ensures
        opt_dec_view(r) == dec_div(a@, b@),
        r matches Some(x) ==> dec_wf(x@),
        div_facts(a@, b@, opt_dec_view(r)),
        b@.mantissa == 0 ==> r is None,
{
    let mut x = Decimal::from_i128_with_scale(a.mantissa, a.scale);
    x.set_sign_negative(a.negative);
    let mut y = Decimal::from_i128_with_scale(b.mantissa, b.scale);
    y.set_sign_negative(b.negative);
    match x.checked_div(y) {
        Some(z) => Some(Dec { mantissa: z.mantissa(), negative: z.is_sign_negative(), scale: z.scale() }),
        None => None,
    }
}

/// `Decimal::round_dp_with_strategy` with `MidpointAwayFromZero`.
#[verifier::external_body]
fn raw_round_half_away(a: &Dec, dp: u32) -> (r: Dec)
    requires
        dec_wf(a@),
    ensures
        r@ == dec_round_half_away(a@, dp as nat),
        dec_wf(r@),
{
    let mut x = Decimal::from_i128_with_scale(a.mantissa, a.scale);
    x.set_sign_negative(a.negative);
    let z = x.round_dp_with_strategy(dp, RoundingStrategy::MidpointAwayFromZero);
    Dec { mantissa: z.mantissa(), negative: z.is_sign_negative(), scale: z.scale() }
}

/// `Decimal`'s `Display`, through `to_string`.
#[verifier::external_body]
fn raw_text(a: &Dec) -> (r: String)
    requires
        dec_wf(a@),
    ensures
        r@ == dec_text(a@),
{
    let mut x = Decimal::from_i128_with_scale(a.mantissa, a.scale);
    x.set_sign_negative(a.negative);
    x.to_string()
}

/// `Decimal`'s `==`, which its source defines as equality of numeric values
/// (zero equals negative zero; trailing zeros of the scale do not matter).
#[verifier::external_body]
fn raw_same_value(a: &Dec, b: &Dec) -> (r: bool)
    requires
        dec_wf(a@),
        dec_wf(b@),
    ensures
        r == dec_same_value(a@, b@),
{
    let mut x = Decimal::from_i128_with_scale(a.mantissa, a.scale);
    x.set_sign_negative(a.negative);
    let mut y = Decimal::from_i128_with_scale(b.mantissa, b.scale);
    y.set_sign_negative(b.negative);
    x == y
}

/// Every decimal but negative zero: the text `Display` writes of it is read
/// back by `from_str_exact` as the same mantissa, sign and scale.
pub open spec fn reads_back(x: DecV) -> bool {
    dec_wf(x) && !(x.mantissa == 0 && x.negative)
}

/// Where `t` is the text of a decimal (negative zero aside), it parses as that decimal.
pub open spec fn parses_back(t: Seq<char>) -> bool {
    forall|x: DecV| reads_back(x) && #[trigger] dec_text(x) == t ==> dec_parse(t) == Ok::<DecV, Seq<char>>(x)
}

/// `Decimal::from_str_exact`; an error comes back as its display text. Of the
/// text that `Display` writes of a decimal it gives that decimal again: its
/// source takes the digits and the place of the point as written (at most 28
/// after the point, at most 2^96 - 1 in all, which such a text keeps to);
/// `from_parts` clears the sign of a zero, so negative zero is left out.
#[verifier::external_body]
fn raw_parse(s: &str) -> (r: Result<Dec, String>)
    ensures
        match (r, dec_parse(s@)) {
            (Ok(x), Ok(v)) => x@ == v && dec_wf(x@),
            (Err(e), Err(t)) => e@ == t,
            _ => false,
        },
        r is Ok || forall|x: DecV| reads_back(x) ==> #[trigger] dec_text(x) != s@,
        r matches Ok(y) ==> forall|x: DecV| reads_back(x) && #[trigger] dec_text(x) == s@ ==> y@ == x,
{
    match Decimal::from_str_exact(s) {
        Ok(z) => Ok(Dec { mantissa: z.mantissa(), negative: z.is_sign_negative(), scale: z.scale() }),
        Err(e) => Err(e.to_string()),
    }
}

impl Dec {
    #[verifier::type_invariant]
    closed spec fn inv(self) -> bool {
        dec_wf(self@)
    }

    /// Zero, with scale 0 and a positive sign.
    pub fn zero() -> (r: Dec)
        ensures
            r@ == dec_of_int(0),
    {
        Dec { mantissa: 0, negative: false, scale: 0 }
    }

    /// The integer `v` as a decimal with scale 0, as `Decimal::from(i64)` gives it.
    pub fn from_int(v: i64) -> (r: Dec)
        ensures
            r@ == dec_of_int(v as int),
    {
        Dec { mantissa: v as i128, negative: v < 0, scale: 0 }
    }

    /// Parses a decimal exactly, as `Decimal::from_str_exact` does.
    pub fn from_str_exact(s: &str) -> (r: Result<Dec, String>)
        ensures
            match (r, dec_parse(s@)) {
                (Ok(x), Ok(v)) => x@ == v,
                (Err(e), Err(t)) => e@ == t,
                _ => false,
            },
            parses_back(s@),
    {
        raw_parse(s)
    }

    pub fn checked_add(&self, other: &Dec) -> (r: Option<Dec>)
        ensures
            opt_dec_view(r) == dec_add(self@, other@),
            add_facts(self@, other@, opt_dec_view(r)),
            dec_wf(self@) && dec_wf(other@),
    {
        proof {
            use_type_invariant(self);
            use_type_invariant(other);
        }
        raw_add(self, other)
    }

    pub fn checked_sub(&self, other: &Dec) -> (r: Option<Dec>)
        ensures
            opt_dec_view(r) == dec_sub(self@, other@),
    {
        proof {
            use_type_invariant(self);
            use_type_invariant(other);
        }
        raw_sub(self, other)
    }

    pub fn checked_mul(&self, other: &Dec) -> (r: Option<Dec>)
        ensures
            opt_dec_view(r) == dec_mul(self@, other@),
            mul_facts(self@, other@, opt_dec_view(r)),
            dec_wf(self@) && dec_wf(other@),
    {
        proof {
            use_type_invariant(self);
            use_type_invariant(other);
        }
        raw_mul(self, other)
    }

    /// Division; `None` on overflow and whenever `other` is zero.
    pub fn checked_div(&self, other: &Dec) -> (r: Option<Dec>)
        ensures
            opt_dec_view(r) == dec_div(self@, other@),
            div_facts(self@, other@, opt_dec_view(r)),
            dec_wf(self@) && dec_wf(other@),
            other@.mantissa == 0 ==> r is None,
    {
        proof {
            use_type_invariant(self);
            use_type_invariant(other);
        }
        raw_div(self, other)
    }

    /// `self + other`, where that does not overflow.
    pub(crate) fn add(&self, other: &Dec) -> (r: Dec)
        requires
            dec_add(self@, other@) is Some,
        ensures
            r@ == dec_add(self@, other@)->0,
    {
        match self.checked_add(other) {
            Some(x) => x,
            None => unreached(),
        }
    }

    /// `self - other`, where that does not overflow.
    pub(crate) fn sub(&self, other: &Dec) -> (r: Dec)
        requires
            dec_sub(self@, other@) is Some,
        ensures
            r@ == dec_sub(self@, other@)->0,
    {
        match self.checked_sub(other) {
            Some(x) => x,
            None => unreached(),
        }
    }

    /// `self * other`, where that does not overflow.
    pub(crate) fn mul(&self, other: &Dec) -> (r: Dec)
        requires
            dec_mul(self@, other@) is Some,
        ensures
            r@ == dec_mul(self@, other@)->0,
    {
        match self.checked_mul(other) {
            Some(x) => x,
            None => unreached(),
        }
    }

    /// `self / other`, where that neither overflows nor divides by zero.
    pub(crate) fn div(&self, other: &Dec) -> (r: Dec)
        requires
            dec_div(self@, other@) is Some,
        ensures
            r@ == dec_div(self@, other@)->0,
    {
        match self.checked_div(other) {
            Some(x) => x,
            None => unreached(),
        }
    }

    /// Negation flips the sign flag and keeps mantissa magnitude and scale.
    pub fn neg(&self) -> (r: Dec)
        ensures
            r@ == (DecV { mantissa: -self@.mantissa, negative: !self@.negative, scale: self@.scale }),
    {
        proof {
            use_type_invariant(self);
        }
        Dec { mantissa: -self.mantissa, negative: !self.negative, scale: self.scale }
    }

    /// Rounds to `dp` places, midpoints away from zero.
    pub fn round_half_away(&self, dp: u32) -> (r: Dec)
        ensures
            r@ == dec_round_half_away(self@, dp as nat),
    {
        proof {
            use_type_invariant(self);
        }
        raw_round_half_away(self, dp)
    }

    /// The decimal's text, as its `Display` writes it.
    pub fn to_text(&self) -> (r: String)
        ensures
            r@ == dec_text(self@),
    {
        proof {
            use_type_invariant(self);
        }
        raw_text(self)
    }

    /// Whether the numeric value is zero.
    pub fn is_zero(&self) -> (r: bool)
        ensures
            r == (self@.mantissa == 0),
    {
        self.mantissa == 0
    }

    /// Whether the numeric value is below zero (negative zero is not).
    pub fn is_below_zero(&self) -> (r: bool)
        ensures
            r == (self@.mantissa < 0),
    {
        self.mantissa < 0
    }

    /// Whether the numeric value is above zero.
    pub fn is_above_zero(&self) -> (r: bool)
        ensures
            r == (self@.mantissa > 0),
    {
        self.mantissa > 0
    }

    /// The sign flag, as `Decimal::is_sign_negative` reports it.
    pub fn is_sign_negative(&self) -> (r: bool)
        ensures
            r == self@.negative,
    {
        self.negative
    }

    /// The signed mantissa.
    pub fn mantissa(&self) -> (r: i128)
        ensures
            r as int == self@.mantissa,
    {
        self.mantissa
    }

    /// The number of decimal places.
    pub fn scale(&self) -> (r: u32)
        ensures
            r as nat == self@.scale,
    {
        self.scale
    }

    /// Numeric equality.
    pub fn same_value(&self, other: &Dec) -> (r: bool)
        ensures
            r == dec_same_value(self@, other@),
    {
        proof {
            use_type_invariant(self);
            use_type_invariant(other);
        }
        raw_same_value(self, other)
    }
}

impl PartialEq for Dec {
    fn eq(&self, other: &Dec) -> (r: bool) {
        self.same_value(other)
    }
}

impl vstd::std_specs::cmp::PartialEqSpecImpl for Dec {
    open spec fn obeys_eq_spec() -> bool {
        true
    }

    open spec fn eq_spec(&self, other: &Dec) -> bool {
        dec_same_value(self@, other@)
    }
}

} // verus!
