//! Decimal integers as they travel in headers: reading an optional sign and
//! digits, and writing the digits back.

use vstd::prelude::*;

verus! {

// ---------------------------------------------------------------------------
// What a decimal numeral is.
// ---------------------------------------------------------------------------

/// The ten decimal digits, in order of value.
pub open spec fn digit_chars() -> Seq<char> {
    seq!['0', '1', '2', '3', '4', '5', '6', '7', '8', '9']
}

/// The digit that stands for `d` (for `0 <= d < 10`).
pub open spec fn digit_char(d: int) -> char {
    digit_chars()[d]
}

/// Whether `c` is one of '0' to '9'.
pub open spec fn is_decimal_digit(c: char) -> bool {
    '0' <= c && c <= '9'
}

/// The value of a decimal digit.
pub open spec fn digit_value(c: char) -> int {
    c as int - '0' as int
}

/// Whether `digits` is a nonempty run of decimal digits.
pub open spec fn is_decimal(digits: Seq<char>) -> bool {
    &&& digits.len() > 0
    &&& forall|i: int| 0 <= i < digits.len() ==> is_decimal_digit(#[trigger] digits[i])
}

/// The value of a run of decimal digits, most significant first; leading zeros
/// count for nothing.
pub open spec fn digits_value(digits: Seq<char>) -> int
    decreases digits.len(),
{
    if digits.len() == 0 {
        0
    } else {
        digits_value(digits.drop_last()) * 10 + digit_value(digits.last())
    }
}

/// Splits an optional leading '+' or '-' off a numeral: whether it was '-', and
/// the rest.
pub open spec fn split_sign(s: Seq<char>) -> (bool, Seq<char>) {
    if s.len() > 0 && s[0] == '+' {
        (false, s.drop_first())
    } else if s.len() > 0 && s[0] == '-' {
        (true, s.drop_first())
    } else {
        (false, s)
    }
}

/// The `u64` that `s` writes: an optional '+' and then one or more digits, whose
/// value fits in a `u64`. Anything else (no digit, another character, a '-', a
/// value above `u64::MAX`) reads as nothing.
pub open spec fn parse_u64_spec(s: Seq<char>) -> Option<u64> {
    let (negative, digits) = split_sign(s);
    if !negative && is_decimal(digits) && digits_value(digits) <= u64::MAX {
        Some(digits_value(digits) as u64)
    } else {
        None
    }
}

/// The `i32` that `s` writes: an optional '+' or '-' and then one or more digits,
/// whose signed value fits in an `i32`. Anything else reads as nothing.
pub open spec fn parse_i32_spec(s: Seq<char>) -> Option<i32> {
    let (negative, digits) = split_sign(s);
    if !is_decimal(digits) {
        None
    } else if negative {
        if digits_value(digits) <= 0x8000_0000 {
            Some((-digits_value(digits)) as i32)
        } else {
            None
        }
    } else if digits_value(digits) <= i32::MAX {
        Some(digits_value(digits) as i32)
    } else {
        None
    }
}

/// The shortest decimal numeral of `n`: no sign, no leading zero (but "0" itself).
pub open spec fn decimal_chars(n: nat) -> Seq<char>
    decreases n,
{
    if n < 10 {
        seq![digit_char(n as int)]
    } else {
        decimal_chars(n / 10).push(digit_char((n % 10) as int))
    }
}

/// The decimal numeral of a signed value: a '-' in front of a negative one.
pub open spec fn signed_decimal_chars(v: int) -> Seq<char> {
    if v < 0 {
        seq!['-'] + decimal_chars((-v) as nat)
    } else {
        decimal_chars(v as nat)
    }
}

// ---------------------------------------------------------------------------
// Reading.
// ---------------------------------------------------------------------------

proof fn lemma_digits_value_push(digits: Seq<char>, c: char)
    ensures
        digits_value(digits.push(c)) == digits_value(digits) * 10 + digit_value(c),
{
    assert(digits.push(c).drop_last() =~= digits);
}

/// Reads an optional sign and then digits. `None` when what follows the sign is
/// not a nonempty run of digits; else whether the sign was '-', and the value of
/// the digits, `None` when it exceeds `u64::MAX`.
fn scan_decimal(s: &str) -> (r: Option<(bool, Option<u64>)>)
    ensures
        ({
            let (negative, digits) = split_sign(s@);
            match r {
                None => !is_decimal(digits),
                Some((neg, magnitude)) => {
                    &&& is_decimal(digits)
                    &&& neg == negative
                    &&& match magnitude {
                        Some(v) => v == digits_value(digits),
                        None => digits_value(digits) > u64::MAX,
                    }
                },
            }
        }),
{
    let mut at_start = true;
    let mut negative = false;
    let mut seen_digit = false;
    let mut overflow = false;
    let mut value: u64 = 0;
    let ghost mut sign_len: int = 0;
    for c in it: s.chars()
        invariant
            it.seq() == s@,
            at_start == (it.index() == 0),
            0 <= sign_len <= 1,
            sign_len <= it.index(),
            sign_len == 1 ==> (s@[0] == '+' || s@[0] == '-'),
            sign_len == 0 && it.index() > 0 ==> s@[0] != '+' && s@[0] != '-',
            negative == (sign_len == 1 && s@[0] == '-'),
            forall|i: int| sign_len <= i < it.index() ==> is_decimal_digit(#[trigger] s@[i]),
            seen_digit == (it.index() > sign_len),
            !overflow ==> value == digits_value(s@.subrange(sign_len, it.index() as int)),
            overflow ==> digits_value(s@.subrange(sign_len, it.index() as int)) > u64::MAX,
    {
        let ghost index = it.index() as int;
        if at_start && (c == '+' || c == '-') {
            negative = c == '-';
            proof {
                sign_len = 1;
                assert(s@.subrange(1, 1).len() == 0);
            }
        } else if '0' <= c && c <= '9' {
            let d: u64 = (c as u32 - '0' as u32) as u64;
            proof {
                let before = s@.subrange(sign_len, index);
                assert(s@.subrange(sign_len, index + 1) =~= before.push(c));
                lemma_digits_value_push(before, c);
            }
            if !overflow {
                if value < 1844674407370955161 || (value == 1844674407370955161 && d <= 5) {
                    value = value * 10 + d;
                } else {
                    overflow = true;
                }
            }
            seen_digit = true;
        } else {
            proof {
                let (neg, all_digits) = split_sign(s@);
                if sign_len == 1 {
                    assert(all_digits[index - 1] == c);
                } else {
                    assert(all_digits[index] == c);
                }
            }
            return None;
        }
        at_start = false;
    }
    proof {
        let (neg, all_digits) = split_sign(s@);
        assert(all_digits =~= s@.subrange(sign_len, s@.len() as int));
    }
    if !seen_digit {
        return None;
    }
    if overflow {
        Some((negative, None))
    } else {
        Some((negative, Some(value)))
    }
}

/// Reads a `u64` written in decimal: an optional '+' and one or more digits.
pub fn parse_u64(s: &str) -> (r: Option<u64>)
    ensures
        r == parse_u64_spec(s@),
{
    match scan_decimal(s) {
        Some((false, Some(v))) => Some(v),
        _ => None,
    }
}

/// Reads an `i32` written in decimal: an optional '+' or '-' and one or more
/// digits.
pub fn parse_i32(s: &str) -> (r: Option<i32>)
    ensures
        r == parse_i32_spec(s@),
{
    match scan_decimal(s) {
        Some((true, Some(v))) => {
            if v <= 0x8000_0000 {
                Some((0i64 - v as i64) as i32)
            } else {
                None
            }
        },
        Some((false, Some(v))) => {
            if v <= 0x7fff_ffff {
                Some(v as i32)
            } else {
                None
            }
        },
        _ => None,
    }
}

// ---------------------------------------------------------------------------
// Writing.
// ---------------------------------------------------------------------------

/// The one-character string of a digit.
fn digit_str(d: u64) -> (r: &'static str)
    requires
        d < 10,
    ensures
        r@ == seq![digit_char(d as int)],
{
    let digits: &'static str = "0123456789";
    proof {
        reveal_strlit("0123456789");
        assert(digits@ =~= digit_chars());
    }
    let r = digits.substring_ascii(d as usize, d as usize + 1);
    assert(r@ =~= seq![digit_char(d as int)]);
    r
}

/// Writes `n` in decimal, without sign or leading zero.
pub fn u64_to_decimal(n: u64) -> (r: String)
    ensures
        r@ == decimal_chars(n as nat),
    decreases n,
{
    if n < 10 {
        digit_str(n).to_owned()
    } else {
        let mut s = u64_to_decimal(n / 10);
        s.append(digit_str(n % 10));
        s
    }
}

/// Writes `v` in decimal, with a '-' in front when it is negative.
pub fn i32_to_decimal(v: i32) -> (r: String)
    ensures
        r@ == signed_decimal_chars(v as int),
{
    if v < 0 {
        let magnitude = u64_to_decimal((0i64 - v as i64) as u64);
        let minus: &'static str = "-";
        proof {
            reveal_strlit("-");
        }
        let mut s = minus.to_owned();
        s.append(magnitude.as_str());
        assert(s@ =~= seq!['-'] + decimal_chars((-(v as int)) as nat));
        s
    } else {
        u64_to_decimal(v as u64)
    }
}

// ---------------------------------------------------------------------------
// Writing then reading gives the value back.
// ---------------------------------------------------------------------------

proof fn lemma_digit_char(d: int)
    requires
        0 <= d < 10,
    ensures
        is_decimal_digit(digit_char(d)),
        digit_value(digit_char(d)) == d,
{
}

proof fn lemma_decimal_chars(n: nat)
    ensures
        is_decimal(decimal_chars(n)),
        digits_value(decimal_chars(n)) == n,
    decreases n,
{
    if n < 10 {
        lemma_digit_char(n as int);
        let s = seq![digit_char(n as int)];
        assert(s.drop_last() =~= Seq::<char>::empty());
        assert(digits_value(s.drop_last()) == 0);
        assert(s.last() == digit_char(n as int));
    } else {
        lemma_decimal_chars(n / 10);
        lemma_digit_char((n % 10) as int);
        lemma_digits_value_push(decimal_chars(n / 10), digit_char((n % 10) as int));
        let s = decimal_chars(n);
        assert forall|i: int| 0 <= i < s.len() implies is_decimal_digit(#[trigger] s[i]) by {
            if i < s.len() - 1 {
                assert(s[i] == decimal_chars(n / 10)[i]);
            }
        }
    }
}

/// Writing a `u64` in decimal and reading it back gives the same value.
pub proof fn law_u64_decimal_round_trip(n: u64)
    ensures
        parse_u64_spec(decimal_chars(n as nat)) == Some(n),
{
    lemma_decimal_chars(n as nat);
    let s = decimal_chars(n as nat);
    assert(is_decimal_digit(s[0]));
}

/// Writing an `i32` in decimal and reading it back gives the same value.
pub proof fn law_i32_decimal_round_trip(v: i32)
    ensures
        parse_i32_spec(signed_decimal_chars(v as int)) == Some(v),
{
    if v < 0 {
        let m = (-(v as int)) as nat;
        lemma_decimal_chars(m);
        let s = signed_decimal_chars(v as int);
        assert(s.drop_first() =~= decimal_chars(m));
    } else {
        lemma_decimal_chars(v as nat);
        let s = decimal_chars(v as nat);
        assert(is_decimal_digit(s[0]));
    }
}

} // verus!
