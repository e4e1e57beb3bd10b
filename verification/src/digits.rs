//! Decimal codec for the stored budget representation.
//!
//! The budget is persisted as the decimal ASCII string of a value in
//! `[0, 255]`. This module defines the mathematical decimal representation
//! (`dec_rep`) and its inverse reading (`dec_value`), together with the
//! executable formatter and parser, and proves that they are inverses.

use vstd::prelude::*;

verus! {

/// The character for a single decimal digit `d` in `[0, 9]`.
pub open spec fn digit_char(d: nat) -> char
    recommends
        d < 10,
{
    ((48 + d) as u8) as char
}

/// Whether `c` is a decimal digit character (`'0'` through `'9'`).
pub open spec fn is_digit(c: char) -> bool {
    48 <= c as int && c as int <= 57
}

/// The numeric value of a decimal digit character.
pub open spec fn digit_val(c: char) -> nat
    recommends
        is_digit(c),
{
    (c as int - 48) as nat
}

/// Whether every character of `s` is a decimal digit.
pub open spec fn all_digits(s: Seq<char>) -> bool {
    forall|i: int| 0 <= i < s.len() ==> is_digit(#[trigger] s[i])
}

/// The decimal representation of `n`: most significant digit first,
/// no leading zeros (a single `'0'` for zero).
pub open spec fn dec_rep(n: nat) -> Seq<char>
    decreases n,
{
    if n < 10 {
        seq![digit_char(n)]
    } else {
        dec_rep(n / 10) + seq![digit_char(n % 10)]
    }
}

/// The number that a sequence of digit characters denotes, read left to
/// right as a base-10 numeral.
pub open spec fn dec_value(s: Seq<char>) -> nat
    decreases s.len(),
{
    if s.len() == 0 {
        0
    } else {
        dec_value(s.drop_last()) * 10 + digit_val(s.last())
    }
}

/// What parsing a stored string yields: `Some(v)` exactly when the string
/// is a non-empty run of decimal digits denoting a value at most 255.
pub open spec fn parse_spec(s: Seq<char>) -> Option<u8> {
    if s.len() > 0 && all_digits(s) && dec_value(s) <= 255 {
        Some(dec_value(s) as u8)
    } else {
        None
    }
}

/// The one-character string for the digit `d`.
fn digit_str(d: u8) -> (r: &'static str)
    requires
        d < 10,
    ensures
        r@ =~= seq![digit_char(d as nat)],
{
    proof {
        reveal_strlit("0");
        reveal_strlit("1");
        reveal_strlit("2");
        reveal_strlit("3");
        reveal_strlit("4");
        reveal_strlit("5");
        reveal_strlit("6");
        reveal_strlit("7");
        reveal_strlit("8");
        reveal_strlit("9");
    }
    match d {
        0 => "0",
        1 => "1",
        2 => "2",
        3 => "3",
        4 => "4",
        5 => "5",
        6 => "6",
        7 => "7",
        8 => "8",
        _ => "9",
    }
}

/// Formats `v` as its decimal ASCII string, the stored representation.
pub fn format_value(v: u8) -> (r: String)
    ensures
        r@ == dec_rep(v as nat),
{
    let mut r = String::new();
    if v >= 100 {
        r.append(digit_str(v / 100));
    }
    if v >= 10 {
        r.append(digit_str((v / 10) % 10));
    }
    r.append(digit_str(v % 10));
    proof {
        lemma_format_shape(v);
        assert(r@ =~= dec_rep(v as nat));
    }
    r
}

/// The decimal representation of a byte spelled out digit by digit.
proof fn lemma_format_shape(v: u8)
    ensures
        v < 10 ==> dec_rep(v as nat) =~= seq![digit_char(v as nat)],
        10 <= v < 100 ==> dec_rep(v as nat) =~= seq![
            digit_char(((v / 10) % 10) as nat),
            digit_char((v % 10) as nat),
        ],
        v >= 100 ==> dec_rep(v as nat) =~= seq![
            digit_char((v / 100) as nat),
            digit_char(((v / 10) % 10) as nat),
            digit_char((v % 10) as nat),
        ],
{
    reveal_with_fuel(dec_rep, 4);
    if v < 10 {
    } else if v < 100 {
        assert(1 <= v as nat / 10 < 10 && (v as nat / 10) % 10 == v as nat / 10)
            by (nonlinear_arith)
            requires
                10 <= v < 100,
        ;
    } else {
        let x = v as nat / 10;
        assert(x / 10 == v as nat / 100 && 10 <= x < 26 && 1 <= v as nat / 100 < 10)
            by (nonlinear_arith)
            requires
                100 <= v < 256,
                x == v as nat / 10,
        ;
        assert(dec_rep(x / 10) =~= seq![digit_char(x / 10)]);
        assert(dec_rep(x) =~= seq![digit_char(x / 10), digit_char(x % 10)]);
    }
}

/// Parses a stored string: a non-empty run of decimal digits whose value
/// is at most 255. Anything else yields `None`.
pub fn parse_decimal(s: &str) -> (r: Option<u8>)
    ensures
        r == parse_spec(s@),
{
    let n = s.unicode_len();
    if n == 0 {
        return None;
    }
    let mut val: u32 = 0;
    let mut i: usize = 0;
    while i < n
        invariant
            0 < n == s@.len(),
            0 <= i <= n,
            all_digits(s@.take(i as int)),
            val == dec_value(s@.take(i as int)),
            val <= 255,
        decreases n - i,
    {
        let c = s.get_char(i);
        let u = c as u32;
        if u < 48 || u > 57 {
            proof {
                assert(!is_digit(s@[i as int]));
            }
            return None;
        }
        let nv = val * 10 + (u - 48);
        proof {
            assert(s@.take(i + 1).drop_last() =~= s@.take(i as int));
            assert(s@.take(i + 1).last() == s@[i as int]);
            assert(nv == dec_value(s@.take(i + 1)));
        }
        if nv > 255 {
            proof {
                lemma_dec_value_grows(s@, i + 1, n as int);
                assert(s@.take(n as int) =~= s@);
            }
            return None;
        }
        val = nv;
        i = i + 1;
    }
    proof {
        assert(s@.take(n as int) =~= s@);
    }
    Some(val as u8)
}

/// Reading one more digit character never shrinks the value denoted so far.
proof fn lemma_dec_value_grows(s: Seq<char>, i: int, j: int)
    requires
        0 <= i <= j <= s.len(),
    ensures
        dec_value(s.take(i)) <= dec_value(s.take(j)),
    decreases j - i,
{
    if i < j {
        lemma_dec_value_grows(s, i, j - 1);
        assert(s.take(j).drop_last() =~= s.take(j - 1));
    }
}

/// The decimal representation of `n` is a non-empty run of digits that
/// denotes `n` itself: formatting and parsing are inverses.
pub proof fn lemma_dec_rep_value(n: nat)
    ensures
        dec_value(dec_rep(n)) == n,
        all_digits(dec_rep(n)),
        dec_rep(n).len() >= 1,
    decreases n,
{
    if n < 10 {
        let s = dec_rep(n);
        assert(s =~= seq![digit_char(n)]);
        assert(s.last() == digit_char(n));
        assert(s.drop_last() =~= Seq::<char>::empty());
        assert(dec_value(s) == dec_value(s.drop_last()) * 10 + digit_val(s.last()));
        assert(digit_val(digit_char(n)) == n);
        assert(is_digit(digit_char(n)));
    } else {
        lemma_dec_rep_value(n / 10);
        let s = dec_rep(n);
        assert(s =~= dec_rep(n / 10) + seq![digit_char(n % 10)]);
        assert(s.drop_last() =~= dec_rep(n / 10));
        assert(s.last() == digit_char(n % 10));
        assert(dec_value(s) == dec_value(s.drop_last()) * 10 + digit_val(s.last()));
        assert(n % 10 < 10 && n / 10 * 10 + n % 10 == n) by (nonlinear_arith)
            requires
                n >= 10,
        ;
        assert(is_digit(digit_char(n % 10)));
        assert(digit_val(digit_char(n % 10)) == n % 10);
        assert(dec_value(s) == n / 10 * 10 + n % 10);
        assert forall|k: int| 0 <= k < s.len() implies is_digit(#[trigger] s[k]) by {
            if k < dec_rep(n / 10).len() {
                assert(s[k] == dec_rep(n / 10)[k]);
            }
        }
    }
}

/// Round trip: a value written as its decimal string parses back to itself.
pub proof fn lemma_round_trip(v: u8)
    ensures
        parse_spec(dec_rep(v as nat)) == Some(v),
{
    lemma_dec_rep_value(v as nat);
}

} // verus!
