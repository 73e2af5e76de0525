//! Money, percentages and dates as the table shows them: two decimals,
//! midpoints rounded away from zero, thousands separated by commas.

use vstd::prelude::*;
use crate::decimal::{Dec, DecV, dec_round_half_away, dec_text};
use crate::text::push_char;
use vstd::utf8::{encode_utf8, encode_scalar};

verus! {

/// The number of bytes of `c` in UTF-8.
pub open spec fn utf8_len(c: char) -> nat {
    encode_scalar(c as u32).len()
}

/// The number of bytes of `s` in UTF-8, what `str::len` reports.
pub open spec fn bytes_len(s: Seq<char>) -> nat {
    encode_utf8(s).len()
}

/// The character at byte offset `at` of a text `total` bytes long, with a
/// comma before it where a group of three bytes ends at it (never at the start).
pub open spec fn grouped_piece(c: char, at: nat, total: nat) -> Seq<char> {
    if at > 0 && (total - at) % 3 == 0 {
        seq![',', c]
    } else {
        seq![c]
    }
}

/// The first `k` characters of `s` with separators, for a text `total` bytes long.
pub open spec fn grouped_prefix(s: Seq<char>, k: nat, total: nat) -> Seq<char>
    decreases k,
{
    if k == 0 || k > s.len() {
        Seq::empty()
    } else {
        grouped_prefix(s, (k - 1) as nat, total) + grouped_piece(
            s[k - 1],
            bytes_len(s.take(k - 1)),
            total,
        )
    }
}

/// `digits` with a comma before every character at which a whole number of
/// three-byte groups remains.
pub open spec fn group_thousands_spec(digits: Seq<char>) -> Seq<char> {
    grouped_prefix(digits, digits.len(), bytes_len(digits))
}

/// The index of the first `c` in `s`.
pub open spec fn first_index_of(s: Seq<char>, c: char) -> Option<nat>
    decreases s.len(),
{
    if s.len() == 0 {
        None
    } else if s[0] == c {
        Some(0)
    } else {
        match first_index_of(s.drop_first(), c) {
            Some(k) => Some(k + 1),
            None => None,
        }
    }
}

/// `s` padded on the right with zeros to two characters (`{:0<2}`).
pub open spec fn pad_cents(s: Seq<char>) -> Seq<char> {
    if s.len() == 0 {
        seq!['0', '0']
    } else if s.len() == 1 {
        s.push('0')
    } else {
        s
    }
}

pub open spec fn negated(v: DecV) -> DecV {
    DecV { mantissa: -v.mantissa, negative: !v.negative, scale: v.scale }
}

/// A decimal with two places: rounded half away from zero, a leading `-`
/// when below zero, thousands grouped, cents padded.
pub open spec fn fmt_2dp_spec(d: DecV) -> Seq<char> {
    let rounded = dec_round_half_away(d, 2);
    let neg = rounded.mantissa < 0;
    let abs = if neg { negated(rounded) } else { rounded };
    let text = dec_text(abs);
    let int_part = match first_index_of(text, '.') {
        Some(k) => text.take(k as int),
        None => text,
    };
    let cents = match first_index_of(text, '.') {
        Some(k) => pad_cents(text.skip(k + 1 as int)),
        None => seq!['0', '0'],
    };
    (if neg { seq!['-'] } else { Seq::empty() }) + group_thousands_spec(int_part) + seq!['.'] + cents
}

/// Money: `$` before the amount, after the sign.
pub open spec fn fmt_money_spec(d: DecV) -> Seq<char> {
    let s = fmt_2dp_spec(d);
    if s.len() > 0 && s[0] == '-' {
        seq!['-', '$'] + s.drop_first()
    } else {
        seq!['$'] + s
    }
}

/// The characters of `s`.
pub(crate) fn chars_of(s: &str) -> (r: Vec<char>)
    ensures
        r@ == s@,
{
    let n = s.unicode_len();
    let mut v: Vec<char> = Vec::new();
    let mut i: usize = 0;
    while i < n
        invariant
            n == s@.len(),
            i <= n,
            v@ == s@.take(i as int),
        decreases n - i,
    {
        let c = s.get_char(i);
        v.push(c);
        proof {
            assert(s@.take(i + 1) =~= s@.take(i as int).push(c));
        }
        i = i + 1;
    }
    proof {
        assert(s@.take(n as int) =~= s@);
    }
    v
}

fn utf8_width(c: char) -> (r: usize)
    ensures
        r as nat == utf8_len(c),
{
    let u = c as u32;
    if u < 0x80 {
        1
    } else if u < 0x800 {
        2
    } else if u < 0x10000 {
        3
    } else {
        4
    }
}

/// Encoding distributes over concatenation.
proof fn lemma_encode_concat(a: Seq<char>, b: Seq<char>)
    ensures
        encode_utf8(a + b) == encode_utf8(a) + encode_utf8(b),
    decreases a.len(),
{
    if a.len() == 0 {
        assert(a + b =~= b);
        assert(encode_utf8(a) + encode_utf8(b) =~= encode_utf8(b));
    } else {
        assert((a + b).drop_first() =~= a.drop_first() + b);
        assert((a + b)[0] == a[0]);
        lemma_encode_concat(a.drop_first(), b);
        assert(encode_utf8(a + b) =~= encode_utf8(a) + encode_utf8(b));
    }
}

/// The bytes of a prefix one character longer.
proof fn lemma_bytes_len_step(s: Seq<char>, k: nat)
    requires
        k < s.len(),
    ensures
        bytes_len(s.take(k + 1 as int)) == bytes_len(s.take(k as int)) + utf8_len(s[k as int]),
        bytes_len(s.take(k + 1 as int)) <= bytes_len(s),
{
    let c = s[k as int];
    assert(s.take(k + 1 as int) =~= s.take(k as int) + seq![c]);
    lemma_encode_concat(s.take(k as int), seq![c]);
    let one = seq![c];
    assert(one.drop_first() =~= Seq::<char>::empty());
    assert(one[0] == c);
    assert(encode_utf8(one.drop_first()) =~= Seq::<u8>::empty());
    assert(encode_utf8(one) =~= encode_scalar(c as u32));
    assert(s =~= s.take(k + 1 as int) + s.skip(k + 1 as int));
    lemma_encode_concat(s.take(k + 1 as int), s.skip(k + 1 as int));
}

/// `digits` with a comma before each character at which the bytes that remain
/// are a non-zero multiple of three.
pub(crate) fn group_thousands(digits: &str) -> (r: String)
    ensures
        r@ == group_thousands_spec(digits@),
{
    let cs = chars_of(digits);
    let n = cs.len();
    let total = digits.as_bytes().len();
    proof {
        assert(cs@.take(0) =~= Seq::<char>::empty());
    }
    let mut out = String::new();
    let mut at: usize = 0;
    let mut i: usize = 0;
    while i < n
        invariant
            n == cs@.len(),
            cs@ == digits@,
            total as nat == bytes_len(cs@),
            i <= n,
            at as nat == bytes_len(cs@.take(i as int)),
            at <= total,
            out@ == grouped_prefix(cs@, i as nat, total as nat),
        decreases n - i,
    {
        let c = cs[i];
        proof {
            lemma_bytes_len_step(cs@, i as nat);
        }
        if at > 0 && (total - at) % 3 == 0 {
            push_char(&mut out, ',');
        }
        push_char(&mut out, c);
        proof {
            assert(out@ =~= grouped_prefix(cs@, (i + 1) as nat, total as nat));
        }
        at = at + utf8_width(c);
        i = i + 1;
    }
    out
}

/// The first index of `c` in `v`.
fn find_char(v: &Vec<char>, c: char) -> (r: Option<usize>)
    ensures
        match (r, first_index_of(v@, c)) {
            (Some(i), Some(k)) => i as nat == k,
            (None, None) => true,
            _ => false,
        },
        r matches Some(i) ==> i < v@.len(),
{
    let mut i: usize = 0;
    proof {
        assert(v@.skip(0) =~= v@);
    }
    while i < v.len()
        invariant
            i <= v@.len(),
            first_index_of(v@, c) == match first_index_of(v@.skip(i as int), c) {
                Some(k) => Some((k + i) as nat),
                None => None,
            },
        decreases v@.len() - i,
    {
        proof {
            assert(v@.skip(i as int).drop_first() =~= v@.skip(i + 1));
        }
        if v[i] == c {
            return Some(i);
        }
        i = i + 1;
    }
    None
}

/// A new string of the characters `v[from..to]`.
fn string_of(v: &Vec<char>, from: usize, to: usize) -> (r: String)
    requires
        from <= to <= v@.len(),
    ensures
        r@ == v@.subrange(from as int, to as int),
{
    let mut out = String::new();
    let mut i = from;
    while i < to
        invariant
            from <= i <= to,
            to <= v@.len(),
            out@ == v@.subrange(from as int, i as int),
        decreases to - i,
    {
        push_char(&mut out, v[i]);
        proof {
            assert(out@ =~= v@.subrange(from as int, i + 1));
        }
        i = i + 1;
    }
    out
}

/// A decimal with two places, thousands grouped.
pub(crate) fn fmt_decimal_2dp(d: Dec) -> (r: String)
    ensures
        r@ == fmt_2dp_spec(d@),
{
    let rounded = d.round_half_away(2);
    let neg = rounded.is_below_zero();
    let abs = if neg { rounded.neg() } else { rounded };
    let text = abs.to_text();
    let cs = chars_of(text.as_str());
    let n = cs.len();
    let found = find_char(&cs, '.');
    let (int_part, cents) = match found {
        Some(k) => {
            assert(k < cs@.len());
            let ip = string_of(&cs, 0, k);
            let mut c = string_of(&cs, k + 1, n);
            if c.unicode_len() == 0 {
                push_char(&mut c, '0');
                push_char(&mut c, '0');
            } else if c.unicode_len() == 1 {
                push_char(&mut c, '0');
            }
            proof {
                assert(ip@ =~= cs@.take(k as int));
                assert(c@ =~= pad_cents(cs@.skip(k + 1)));
            }
            (ip, c)
        },
        None => {
            let c = String::from_str("00");
            proof {
                reveal_strlit("00");
                assert(c@ =~= seq!['0', '0']);
            }
            (text, c)
        },
    };
    let mut out = String::new();
    if neg {
        push_char(&mut out, '-');
    }
    let g = group_thousands(int_part.as_str());
    out.append(g.as_str());
    push_char(&mut out, '.');
    out.append(cents.as_str());
    out
}

/// Money: the amount with two places and a `$` after the sign,
/// e.g. `$1,234,567.89` or `-$0.01`.
pub fn fmt_money(d: Dec) -> (r: String)
    ensures
        r@ == fmt_money_spec(d@),
{
    let s = fmt_decimal_2dp(d);
    let cs = chars_of(s.as_str());
    let mut out = String::new();
    if cs.len() > 0 && cs[0] == '-' {
        push_char(&mut out, '-');
        push_char(&mut out, '$');
        let rest = string_of(&cs, 1, cs.len());
        out.append(rest.as_str());
        proof {
            assert(out@ =~= seq!['-', '$'] + s@.drop_first());
        }
    } else {
        push_char(&mut out, '$');
        out.append(s.as_str());
        proof {
            assert(out@ =~= seq!['$'] + s@);
        }
    }
    out
}

/// A percentage with two places and a `%` sign, e.g. `4.31%`.
pub fn fmt_pct(d: Dec) -> (r: String)
    ensures
        r@ == fmt_2dp_spec(d@).push('%'),
{
    let mut s = fmt_decimal_2dp(d);
    push_char(&mut s, '%');
    s
}

/// A date as given, or an em dash where there is none.
pub fn fmt_date(d: Option<&str>) -> (r: String)
    ensures
        r@ == match d {
            Some(s) => s@,
            None => "\u{2014}"@,
        },
{
    match d {
        Some(s) => String::from_str(s),
        None => String::from_str("\u{2014}"),
    }
}

} // verus!
