//! Parsing numeric input fields: decimal and hexadecimal whole numbers with
//! an optional leading plus sign, and the identifier format the dialogs
//! accept (`0x` prefix, decimal, or bare hexadecimal).

use crate::text::{str_trim, trim_spec};
use vstd::prelude::*;
use vstd::string::StrSliceExecFns;

verus! {

/// The value of one digit character under a radix, if it is one.
pub open spec fn digit_val(c: char, radix: int) -> Option<int> {
    let v = (c as u32) as int;
    let raw: Option<int> = if 48 <= v <= 57 {
        Some(v - 48)
    } else if 97 <= v <= 102 {
        Some(v - 87)
    } else if 65 <= v <= 70 {
        Some(v - 55)
    } else {
        None
    };
    match raw {
        Some(d) => if d < radix {
            Some(d)
        } else {
            None
        },
        None => None,
    }
}

/// The value of a digit string under a radix; `None` when it is empty or any
/// character is not a digit of that radix.
pub open spec fn digits_val(s: Seq<char>, radix: int) -> Option<int>
    decreases s.len(),
{
    if s.len() == 0 {
        None
    } else if s.len() == 1 {
        digit_val(s[0], radix)
    } else {
        match (digits_val(s.drop_last(), radix), digit_val(s.last(), radix)) {
            (Some(p), Some(d)) => Some(p * radix + d),
            _ => None,
        }
    }
}

/// A digit string without a sign, a leading plus sign stripped.
pub open spec fn strip_plus(s: Seq<char>) -> Seq<char> {
    if s.len() > 0 && s[0] == '+' {
        s.drop_first()
    } else {
        s
    }
}

/// The number a field holds: the digit value after an optional plus sign,
/// accepted only up to `bound`.
pub open spec fn parse_bounded_spec(s: Seq<char>, radix: int, bound: int) -> Option<int> {
    match digits_val(strip_plus(s), radix) {
        Some(v) => if v <= bound {
            Some(v)
        } else {
            None
        },
        None => None,
    }
}

proof fn lemma_digits_val_nonneg(s: Seq<char>, radix: int)
    requires
        radix >= 2,
        digits_val(s, radix) is Some,
    ensures
        digits_val(s, radix)->0 >= 0,
    decreases s.len(),
{
    if s.len() > 1 {
        lemma_digits_val_nonneg(s.drop_last(), radix);
        let p = digits_val(s.drop_last(), radix)->0;
        let d = digit_val(s.last(), radix)->0;
        assert(p * radix + d >= 0) by (nonlinear_arith)
            requires
                p >= 0,
                radix >= 2,
                d >= 0,
        ;
    }
}

proof fn lemma_digits_val_grows(s: Seq<char>, radix: int, i: int)
    requires
        radix >= 2,
        0 < i <= s.len(),
        digits_val(s, radix) is Some,
        digits_val(s.take(i), radix) is Some,
    ensures
        digits_val(s, radix)->0 >= digits_val(s.take(i), radix)->0,
    decreases s.len() - i,
{
    if i == s.len() {
        assert(s.take(i) =~= s);
    } else {
        assert(s.take(i) =~= s.drop_last().take(i));
        lemma_digits_val_grows(s.drop_last(), radix, i);
        lemma_digits_val_nonneg(s.drop_last(), radix);
        let p = digits_val(s.drop_last(), radix)->0;
        let d = digit_val(s.last(), radix)->0;
        assert(p * radix + d >= p) by (nonlinear_arith)
            requires
                p >= 0,
                radix >= 2,
                d >= 0,
        ;
    }
}

proof fn lemma_digits_val_invalid(s: Seq<char>, radix: int, i: int)
    requires
        0 <= i < s.len(),
        digit_val(s[i], radix) is None,
    ensures
        digits_val(s, radix) is None,
    decreases s.len(),
{
    if s.len() > 1 && i < s.len() - 1 {
        assert(s.drop_last()[i] == s[i]);
        lemma_digits_val_invalid(s.drop_last(), radix, i);
    }
}

/// A number a field was accepted to hold lies between zero and the bound.
pub proof fn lemma_parse_bounded_nonneg(s: Seq<char>, radix: int, bound: int)
    requires
        radix >= 2,
        parse_bounded_spec(s, radix, bound) is Some,
    ensures
        0 <= parse_bounded_spec(s, radix, bound)->0 <= bound,
{
    lemma_digits_val_nonneg(strip_plus(s), radix);
}

/// Decides `digit_val`.
fn char_digit(c: char, hex: bool) -> (r: Option<u64>)
    ensures
        match r {
            Some(d) => digit_val(c, if hex { 16int } else { 10int }) == Some(d as int),
            None => digit_val(c, if hex { 16int } else { 10int }) is None,
        },
{
    let v = c as u32;
    if 48 <= v && v <= 57 {
        Some((v - 48) as u64)
    } else if hex && 97 <= v && v <= 102 {
        Some((v - 87) as u64)
    } else if hex && 65 <= v && v <= 70 {
        Some((v - 55) as u64)
    } else {
        None
    }
}

/// Parses a number field: an optional plus sign and then digits of the given
/// radix, accepted only when the value is at most `bound`.
#[verifier::loop_isolation(false)]
pub fn parse_digits_bounded(s: &str, hex: bool, bound: u64) -> (r: Option<u64>)
    requires
        bound <= u32::MAX,
    ensures
        match r {
            Some(a) => parse_bounded_spec(s@, if hex { 16int } else { 10int }, bound as int)
                == Some(a as int),
            None => parse_bounded_spec(s@, if hex { 16int } else { 10int }, bound as int) is None,
        },
{
    let ghost radix: int = if hex {
        16int
    } else {
        10int
    };
    let n = s.unicode_len();
    let start: usize = if n > 0 && s.get_char(0) == '+' {
        1
    } else {
        0
    };
    let ghost body = strip_plus(s@);
    proof {
        if start == 1 {
            assert(body =~= s@.skip(1));
        } else {
            assert(body =~= s@.skip(0));
        }
    }
    if start >= n {
        return None;
    }
    let mut acc: u64 = 0;
    let mut too_big = false;
    let mut i: usize = start;
    while i < n
        invariant
            start <= i <= n,
            body == s@.skip(start as int),
            body.len() == n - start,
            i > start ==> digits_val(body.take(i - start), radix) is Some,
            i > start && !too_big ==> digits_val(body.take(i - start), radix) == Some(acc as int),
            i > start && too_big ==> digits_val(body.take(i - start), radix)->0 > bound,
            acc <= bound,
            i == start ==> !too_big,
        decreases n - i,
    {
        let c = s.get_char(i);
        proof {
            assert(body[i - start] == s@[i as int]);
        }
        let d = match char_digit(c, hex) {
            Some(d) => d,
            None => {
                proof {
                    lemma_digits_val_invalid(body, radix, i - start);
                }
                return None;
            },
        };
        proof {
            assert(body.take(i - start + 1).drop_last() =~= body.take(i - start));
            assert(body.take(i - start + 1).last() == body[i - start]);
            if i > start {
                lemma_digits_val_nonneg(body.take(i - start), radix);
            }
        }
        if i == start {
            acc = d;
            if acc > bound {
                too_big = true;
                acc = 0;
            }
        } else if too_big {
            let ghost p = digits_val(body.take(i - start), radix)->0;
            proof {
                assert(p * radix + (d as int) > bound) by (nonlinear_arith)
                    requires
                        p > bound,
                        bound >= 0,
                        radix >= 2,
                        d >= 0,
                ;
            }
        } else {
            let r: u64 = if hex {
                16
            } else {
                10
            };
            let next = acc * r + d;
            if next > bound {
                too_big = true;
                acc = 0;
            } else {
                acc = next;
            }
        }
        i = i + 1;
    }
    proof {
        assert(body.take(n - start) =~= body);
    }
    if too_big {
        None
    } else {
        Some(acc)
    }
}

/// The message identifier a dialog field denotes: after trimming, a `0x` or
/// `0X` prefix makes it hexadecimal; otherwise it is read as decimal, and as
/// bare hexadecimal when that fails. Empty or unreadable fields denote
/// nothing.
pub open spec fn message_id_spec(s: Seq<char>) -> Option<u32> {
    let t = trim_spec(s);
    if t.len() == 0 {
        None
    } else {
        let hex_rest = parse_bounded_spec(t.skip(2), 16, u32::MAX as int);
        let as_dec = parse_bounded_spec(t, 10, u32::MAX as int);
        let as_hex = parse_bounded_spec(t, 16, u32::MAX as int);
        if t.len() >= 2 && t[0] == '0' && (t[1] == 'x' || t[1] == 'X') && hex_rest is Some {
            Some(hex_rest->0 as u32)
        } else if as_dec is Some {
            Some(as_dec->0 as u32)
        } else if as_hex is Some {
            Some(as_hex->0 as u32)
        } else {
            None
        }
    }
}

/// Parses a message identifier field: `0x123`, `123` decimal, or bare
/// hexadecimal, in that order of preference.
pub fn parse_message_id(s: &str) -> (r: Option<u32>)
    ensures
        r == message_id_spec(s@),
{
    let t = str_trim(s);
    let tn = t.as_str().unicode_len();
    if tn == 0 {
        return None;
    }
    if tn >= 2 && t.as_str().get_char(0) == '0' && (t.as_str().get_char(1) == 'x'
        || t.as_str().get_char(1) == 'X') {
        let rest = t.as_str().substring_char(2, tn);
        proof {
            assert(rest@ =~= t@.skip(2));
        }
        match parse_digits_bounded(rest, true, u32::MAX as u64) {
            Some(v) => {
                return Some(v as u32);
            },
            None => {},
        }
    }
    match parse_digits_bounded(t.as_str(), false, u32::MAX as u64) {
        Some(v) => {
            return Some(v as u32);
        },
        None => {},
    }
    match parse_digits_bounded(t.as_str(), true, u32::MAX as u64) {
        Some(v) => Some(v as u32),
        None => None,
    }
}

/// The byte size a dialog field denotes: a trimmed decimal number of at most
/// eight.
pub open spec fn message_size_spec(s: Seq<char>) -> Option<u64> {
    match parse_bounded_spec(trim_spec(s), 10, 8) {
        Some(v) => Some(v as u64),
        None => None,
    }
}

/// Parses a message byte size field: decimal, at most eight.
pub fn parse_message_size(s: &str) -> (r: Option<u64>)
    ensures
        r == message_size_spec(s@),
{
    let t = str_trim(s);
    parse_digits_bounded(t.as_str(), false, 8)
}

/// Parses an unsigned number field in decimal, up to the full range of a
/// 32-bit value.
pub fn parse_u32_dec(s: &str) -> (r: Option<u32>)
    ensures
        match r {
            Some(v) => parse_bounded_spec(trim_spec(s@), 10, u32::MAX as int) == Some(v as int),
            None => parse_bounded_spec(trim_spec(s@), 10, u32::MAX as int) is None,
        },
{
    let t = str_trim(s);
    match parse_digits_bounded(t.as_str(), false, u32::MAX as u64) {
        Some(v) => Some(v as u32),
        None => None,
    }
}

} // verus!
