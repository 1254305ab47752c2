//! Parsing of limit strings such as `"200MB"`, `"200 MB"` or `"20%"`.
//!
//! A limit string is an amount (decimal digits with at most one decimal
//! point, one to fifteen digits), optionally one whitespace character, then a
//! mandatory unit token: `%`, or one of `KB`, `MB`, `GB`, `TB` in either
//! case. A bare number, a malformed amount or an unrecognized token is a
//! parse failure. The amount is kept exactly, as a numerator over a
//! power-of-ten denominator, so the checker can compare without rounding.

use vstd::prelude::*;
use crate::units::ByteUnit;

verus! {

/// The unit of a parsed limit: a percentage of the target's total capacity,
/// or an absolute byte-size unit.
#[derive(Clone, Copy, Debug, PartialEq, Eq, Structural)]
pub enum LimitUnit {
    Percent,
    Size(ByteUnit),
}

/// A parsed limit: the amount is the exact rational
/// `amount_num / amount_den`, with `amount_den` the power of ten matching
/// the number of digits after the decimal point.
#[derive(Clone, Copy, Debug, PartialEq, Eq, Structural)]
pub struct Limit {
    pub amount_num: u64,
    pub amount_den: u64,
    pub unit: LimitUnit,
}

/// Largest admissible numerator: amounts have at most fifteen digits.
pub const AMOUNT_LIMIT: u64 = 1000000000000000;

impl Limit {
    /// Bounds every parsed limit meets; they keep the checker's
    /// 128-bit comparisons exact.
    pub open spec fn wf(self) -> bool {
        self.amount_num < AMOUNT_LIMIT && 1 <= self.amount_den <= AMOUNT_LIMIT
    }
}

/// Ten raised to `k`.
pub open spec fn pow10(k: nat) -> nat
    decreases k,
{
    if k == 0 {
        1
    } else {
        10 * pow10((k - 1) as nat)
    }
}

pub proof fn lemma_pow10_values()
    ensures
        pow10(14) == AMOUNT_LIMIT / 10,
        pow10(15) == AMOUNT_LIMIT,
{
    reveal_with_fuel(pow10, 16);
}

pub proof fn lemma_pow10_monotonic(a: nat, b: nat)
    requires
        a <= b,
    ensures
        pow10(a) <= pow10(b),
        pow10(a) >= 1,
    decreases b,
{
    lemma_pow10_pos(a);
    if b > 0 && a < b {
        lemma_pow10_monotonic(a, (b - 1) as nat);
        lemma_pow10_pos((b - 1) as nat);
    }
}

pub proof fn lemma_pow10_pos(a: nat)
    ensures
        pow10(a) >= 1,
    decreases a,
{
    if a > 0 {
        lemma_pow10_pos((a - 1) as nat);
    }
}

pub open spec fn is_digit(c: char) -> bool {
    '0' <= c && c <= '9'
}

pub open spec fn digit_val(c: char) -> nat {
    (c as int - '0' as int) as nat
}

/// A character the amount part may consist of.
pub open spec fn is_amount_char(c: char) -> bool {
    is_digit(c) || c == '.'
}

/// The whitespace allowed between amount and unit token.
pub open spec fn is_space(c: char) -> bool {
    c == ' ' || c == '\t' || c == '\r' || c == '\n'
}

/// Length of the longest prefix made of digits and decimal points.
pub open spec fn amount_prefix_len(s: Seq<char>) -> nat
    decreases s.len(),
{
    if s.len() == 0 || !is_amount_char(s[0]) {
        0
    } else {
        1 + amount_prefix_len(s.skip(1))
    }
}

/// How many digits a sequence holds.
pub open spec fn count_digits(s: Seq<char>) -> nat
    decreases s.len(),
{
    if s.len() == 0 {
        0
    } else {
        count_digits(s.drop_last()) + (if is_digit(s.last()) {
            1nat
        } else {
            0nat
        })
    }
}

/// How many decimal points a sequence holds.
pub open spec fn count_dots(s: Seq<char>) -> nat
    decreases s.len(),
{
    if s.len() == 0 {
        0
    } else {
        count_dots(s.drop_last()) + (if s.last() == '.' {
            1nat
        } else {
            0nat
        })
    }
}

/// The integer the digits of `s` spell out left to right, decimal points
/// ignored: the numerator of the amount.
pub open spec fn amount_num_of(s: Seq<char>) -> nat
    decreases s.len(),
{
    if s.len() == 0 {
        0
    } else if is_digit(s.last()) {
        amount_num_of(s.drop_last()) * 10 + digit_val(s.last())
    } else {
        amount_num_of(s.drop_last())
    }
}

/// How many digits stand after the first decimal point.
pub open spec fn frac_len(s: Seq<char>) -> nat
    decreases s.len(),
{
    if s.len() == 0 {
        0
    } else {
        frac_len(s.drop_last()) + (if is_digit(s.last()) && count_dots(s.drop_last()) >= 1 {
            1nat
        } else {
            0nat
        })
    }
}

/// A well-formed amount: at least one digit, at most fifteen, at most one
/// decimal point.
pub open spec fn valid_amount(s: Seq<char>) -> bool {
    1 <= count_digits(s) <= 15 && count_dots(s) <= 1
}

/// The unit a token names, folding letter case; anything else, the empty
/// token included, names none.
pub open spec fn spec_unit_of_token(tok: Seq<char>) -> Option<LimitUnit> {
    if tok.len() == 1 && tok[0] == '%' {
        Some(LimitUnit::Percent)
    } else if tok.len() == 2 && (tok[1] == 'B' || tok[1] == 'b') {
        if tok[0] == 'K' || tok[0] == 'k' {
            Some(LimitUnit::Size(ByteUnit::KB))
        } else if tok[0] == 'M' || tok[0] == 'm' {
            Some(LimitUnit::Size(ByteUnit::MB))
        } else if tok[0] == 'G' || tok[0] == 'g' {
            Some(LimitUnit::Size(ByteUnit::GB))
        } else if tok[0] == 'T' || tok[0] == 't' {
            Some(LimitUnit::Size(ByteUnit::TB))
        } else {
            None
        }
    } else {
        None
    }
}

/// What parsing a limit string returns: the amount prefix is cut off
/// greedily, at most one whitespace character is skipped, and the remainder
/// must be a recognized unit token.
pub open spec fn spec_parse_limit(s: Seq<char>) -> Option<Limit> {
    let amount = s.take(amount_prefix_len(s) as int);
    let rest = s.skip(amount_prefix_len(s) as int);
    let tok = if rest.len() >= 1 && is_space(rest[0]) {
        rest.skip(1)
    } else {
        rest
    };
    if valid_amount(amount) {
        match spec_unit_of_token(tok) {
            Some(u) => Some(
                Limit {
                    amount_num: amount_num_of(amount) as u64,
                    amount_den: pow10(frac_len(amount)) as u64,
                    unit: u,
                },
            ),
            None => None,
        }
    } else {
        None
    }
}

/// The numerator is bounded by ten to the number of digits.
pub proof fn lemma_amount_num_bound(s: Seq<char>)
    ensures
        amount_num_of(s) < pow10(count_digits(s)),
    decreases s.len(),
{
    if s.len() > 0 {
        lemma_amount_num_bound(s.drop_last());
    }
}

/// No more digits stand after the decimal point than stand in the whole.
pub proof fn lemma_frac_le_digits(s: Seq<char>)
    ensures
        frac_len(s) <= count_digits(s),
    decreases s.len(),
{
    if s.len() > 0 {
        lemma_frac_le_digits(s.drop_last());
    }
}

/// A scan that saw only amount characters up to `i` and stopped there found
/// the amount prefix.
proof fn lemma_amount_prefix_len_from_scan(s: Seq<char>, i: int)
    requires
        0 <= i <= s.len(),
        forall|j: int| 0 <= j < i ==> is_amount_char(s[j]),
        i < s.len() ==> !is_amount_char(s[i]),
    ensures
        amount_prefix_len(s) == i,
    decreases i,
{
    if i == 0 {
    } else {
        lemma_amount_prefix_len_from_scan(s.skip(1), i - 1);
    }
}

/// A sequence of amount characters followed by anything that starts
/// otherwise is cut exactly at the seam.
proof fn lemma_amount_prefix_len_concat(a: Seq<char>, b: Seq<char>)
    requires
        forall|j: int| 0 <= j < a.len() ==> is_amount_char(a[j]),
        b.len() >= 1 ==> !is_amount_char(b[0]),
    ensures
        amount_prefix_len(a + b) == a.len(),
{
    assert(forall|j: int| 0 <= j < a.len() ==> (a + b)[j] == a[j]);
    if b.len() >= 1 {
        assert((a + b)[a.len() as int] == b[0]);
    }
    lemma_amount_prefix_len_from_scan(a + b, a.len() as int);
}

/// A valid amount followed directly by a recognized unit token parses to
/// exactly that amount and that unit.
pub proof fn lemma_parse_limit_round_trip(amount: Seq<char>, tok: Seq<char>)
    requires
        forall|j: int| 0 <= j < amount.len() ==> is_amount_char(amount[j]),
        valid_amount(amount),
        spec_unit_of_token(tok) is Some,
    ensures
        spec_parse_limit(amount + tok) == Some(
            Limit {
                amount_num: amount_num_of(amount) as u64,
                amount_den: pow10(frac_len(amount)) as u64,
                unit: spec_unit_of_token(tok).unwrap(),
            },
        ),
{
    assert(!is_amount_char(tok[0]) && !is_space(tok[0]));
    lemma_amount_prefix_len_concat(amount, tok);
    let s = amount + tok;
    assert(s.take(amount.len() as int) =~= amount);
    assert(s.skip(amount.len() as int) =~= tok);
}

/// The same, with one whitespace character between amount and unit token.
pub proof fn lemma_parse_limit_round_trip_spaced(amount: Seq<char>, sep: char, tok: Seq<char>)
    requires
        forall|j: int| 0 <= j < amount.len() ==> is_amount_char(amount[j]),
        valid_amount(amount),
        is_space(sep),
        spec_unit_of_token(tok) is Some,
    ensures
        spec_parse_limit(amount + seq![sep] + tok) == Some(
            Limit {
                amount_num: amount_num_of(amount) as u64,
                amount_den: pow10(frac_len(amount)) as u64,
                unit: spec_unit_of_token(tok).unwrap(),
            },
        ),
{
    let rest = seq![sep] + tok;
    assert(!is_amount_char(rest[0]));
    lemma_amount_prefix_len_concat(amount, rest);
    let s = amount + seq![sep] + tok;
    assert(s =~= amount + rest);
    assert(amount_prefix_len(s) == amount.len());
    assert(s.take(amount.len() as int) =~= amount);
    assert(s.skip(amount.len() as int) =~= rest);
    assert(rest.skip(1) =~= tok);
}

/// A bare number, digits with no unit token at all, never parses.
pub proof fn lemma_parse_limit_bare_number(s: Seq<char>)
    requires
        s.len() >= 1,
        forall|j: int| 0 <= j < s.len() ==> is_digit(s[j]),
    ensures
        spec_parse_limit(s) is None,
{
    lemma_amount_prefix_len_from_scan(s, s.len() as int);
    assert(s.skip(s.len() as int) =~= Seq::<char>::empty());
}

fn is_amount_char_x(c: char) -> (r: bool)
    ensures
        r == is_amount_char(c),
{
    c == '.' || ('0' <= c && c <= '9')
}

fn is_space_x(c: char) -> (r: bool)
    ensures
        r == is_space(c),
{
    c == ' ' || c == '\t' || c == '\r' || c == '\n'
}

/// Parses a limit string; `None` is the parse failure the rule evaluator
/// recovers from. Exactly the strings of the grammar above parse, to the
/// exact amount and unit they spell.
pub fn parse_limit(limit: &String) -> (r: Option<Limit>)
    ensures
        r == spec_parse_limit(limit@),
        r is Some ==> r.unwrap().wf(),
{
    let s = limit.as_str();
    let n = s.unicode_len();
    let mut i: usize = 0;
    let mut digits: usize = 0;
    let mut dots: usize = 0;
    let mut frac: usize = 0;
    let mut num: u64 = 0;
    while i < n && is_amount_char_x(s.get_char(i))
        invariant
            n == s@.len(),
            0 <= i <= n,
            forall|j: int| 0 <= j < i ==> is_amount_char(s@[j]),
            digits == count_digits(s@.take(i as int)),
            dots == count_dots(s@.take(i as int)),
            frac == frac_len(s@.take(i as int)),
            digits <= i && dots <= i && frac <= digits,
            num < AMOUNT_LIMIT,
            digits <= 15 ==> num == amount_num_of(s@.take(i as int)),
        decreases n - i,
    {
        let c = s.get_char(i);
        proof {
            assert(s@.take(i + 1).drop_last() =~= s@.take(i as int));
            assert(s@.take(i + 1).last() == s@[i as int]);
        }
        if c == '.' {
            dots = dots + 1;
        } else {
            if digits < 15 {
                proof {
                    lemma_amount_num_bound(s@.take(i as int));
                    lemma_pow10_monotonic(count_digits(s@.take(i as int)), 14);
                    lemma_pow10_values();
                }
                num = num * 10 + (c as u32 as u64 - 48);
            }
            digits = digits + 1;
            if dots > 0 {
                frac = frac + 1;
            }
        }
        i = i + 1;
    }
    proof {
        lemma_amount_prefix_len_from_scan(s@, i as int);
        assert(s@.take(i as int) =~= s@.take(amount_prefix_len(s@) as int));
    }
    if digits == 0 || digits > 15 || dots > 1 {
        return None;
    }
    let mut j = i;
    if j < n && is_space_x(s.get_char(j)) {
        j = j + 1;
    }
    proof {
        let rest = s@.skip(i as int);
        let tok = s@.skip(j as int);
        assert(rest.len() >= 1 ==> rest[0] == s@[i as int]);
        assert(forall|k: int| 0 <= k < tok.len() ==> tok[k] == s@[j + k]);
    }
    let unit: LimitUnit;
    if n - j == 1 {
        let c0 = s.get_char(j);
        if c0 == '%' {
            unit = LimitUnit::Percent;
        } else {
            return None;
        }
    } else if n - j == 2 {
        let c0 = s.get_char(j);
        let c1 = s.get_char(j + 1);
        if !(c1 == 'B' || c1 == 'b') {
            return None;
        }
        if c0 == 'K' || c0 == 'k' {
            unit = LimitUnit::Size(ByteUnit::KB);
        } else if c0 == 'M' || c0 == 'm' {
            unit = LimitUnit::Size(ByteUnit::MB);
        } else if c0 == 'G' || c0 == 'g' {
            unit = LimitUnit::Size(ByteUnit::GB);
        } else if c0 == 'T' || c0 == 't' {
            unit = LimitUnit::Size(ByteUnit::TB);
        } else {
            return None;
        }
    } else {
        return None;
    }
    let mut den: u64 = 1;
    let mut k: usize = 0;
    proof {
        lemma_frac_le_digits(s@.take(i as int));
    }
    while k < frac
        invariant
            k <= frac <= 15,
            den == pow10(k as nat),
            den <= AMOUNT_LIMIT,
        decreases frac - k,
    {
        proof {
            lemma_pow10_monotonic(k as nat + 1, 15);
            lemma_pow10_values();
        }
        den = den * 10;
        k = k + 1;
    }
    proof {
        lemma_pow10_monotonic(0, frac as nat);
        lemma_pow10_monotonic(frac as nat, 15);
        lemma_pow10_values();
    }
    Some(Limit { amount_num: num, amount_den: den, unit })
}

} // verus!
