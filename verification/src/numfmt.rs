//! Rendering numbers as text: decimal and uppercase hexadecimal, with the
//! digit sequences pinned down exactly.

use vstd::prelude::*;

verus! {

/// The character for one digit value, uppercase for ten to fifteen.
pub open spec fn digit_char(d: int) -> char {
    if d == 0 {
        '0'
    } else if d == 1 {
        '1'
    } else if d == 2 {
        '2'
    } else if d == 3 {
        '3'
    } else if d == 4 {
        '4'
    } else if d == 5 {
        '5'
    } else if d == 6 {
        '6'
    } else if d == 7 {
        '7'
    } else if d == 8 {
        '8'
    } else if d == 9 {
        '9'
    } else if d == 10 {
        'A'
    } else if d == 11 {
        'B'
    } else if d == 12 {
        'C'
    } else if d == 13 {
        'D'
    } else if d == 14 {
        'E'
    } else {
        'F'
    }
}

/// The decimal digits of a non-negative number, most significant first.
pub open spec fn dec_digits(v: int) -> Seq<char>
    decreases v,
{
    if v < 10 {
        seq![digit_char(v)]
    } else {
        dec_digits(v / 10).push(digit_char(v % 10))
    }
}

/// The uppercase hexadecimal digits of a non-negative number, most
/// significant first.
pub open spec fn hex_digits(v: int) -> Seq<char>
    decreases v,
{
    if v < 16 {
        seq![digit_char(v)]
    } else {
        hex_digits(v / 16).push(digit_char(v % 16))
    }
}

/// The hexadecimal digits, left-padded with zeros to at least three places.
pub open spec fn hex_digits_pad3(v: int) -> Seq<char> {
    if hex_digits(v).len() >= 3 {
        hex_digits(v)
    } else {
        Seq::new((3 - hex_digits(v).len()) as nat, |i: int| '0') + hex_digits(v)
    }
}

/// The text of one digit value.
pub fn digit_str(d: u64) -> (r: &'static str)
    requires
        d < 16,
    ensures
        r@ == seq![digit_char(d as int)],
{
    let r: &'static str = match d {
        0 => "0",
        1 => "1",
        2 => "2",
        3 => "3",
        4 => "4",
        5 => "5",
        6 => "6",
        7 => "7",
        8 => "8",
        9 => "9",
        10 => "A",
        11 => "B",
        12 => "C",
        13 => "D",
        14 => "E",
        _ => "F",
    };
    proof {
        reveal_strlit("0");
        reveal_strlit("1");
        reveal_strlit("2");
        reveal_strlit("3");
        reveal_strlit("4");
        reveal_strlit("5");
        reveal_strlit("6");
        reveal_strlit("7");
        reveal_strlit("8");
        reveal_strlit("9");
        reveal_strlit("A");
        reveal_strlit("B");
        reveal_strlit("C");
        reveal_strlit("D");
        reveal_strlit("E");
        reveal_strlit("F");
        assert(r@ =~= seq![digit_char(d as int)]);
    }
    r
}

/// Appends the decimal digits of `v`.
pub fn push_dec_u64(out: &mut String, v: u64)
    ensures
        final(out)@ == old(out)@ + dec_digits(v as int),
    decreases v,
{
    if v < 10 {
        out.append(digit_str(v));
        proof {
            assert(final(out)@ =~= old(out)@ + dec_digits(v as int));
        }
    } else {
        push_dec_u64(out, v / 10);
        out.append(digit_str(v % 10));
        proof {
            assert(final(out)@ =~= old(out)@ + dec_digits(v as int));
        }
    }
}

/// Appends the uppercase hexadecimal digits of `v`.
pub fn push_hex_u64(out: &mut String, v: u64)
    ensures
        final(out)@ == old(out)@ + hex_digits(v as int),
    decreases v,
{
    if v < 16 {
        out.append(digit_str(v));
        proof {
            assert(final(out)@ =~= old(out)@ + hex_digits(v as int));
        }
    } else {
        push_hex_u64(out, v / 16);
        out.append(digit_str(v % 16));
        proof {
            assert(final(out)@ =~= old(out)@ + hex_digits(v as int));
        }
    }
}

/// Appends the hexadecimal digits of `v`, zero-padded to at least three
/// places.
pub fn push_hex_u32_pad3(out: &mut String, v: u32)
    ensures
        final(out)@ == old(out)@ + hex_digits_pad3(v as int),
{
    proof {
        reveal_strlit("0");
        if v < 16 {
            assert(hex_digits(v as int).len() == 1);
        } else if v < 256 {
            assert(hex_digits(v as int / 16).len() == 1);
            assert(hex_digits(v as int).len() == 2);
        } else if v < 4096 {
            assert(hex_digits(v as int / 256).len() == 1);
            assert(hex_digits(v as int / 16).len() == 2);
            assert(hex_digits(v as int).len() == 3);
        }
    }
    if v < 16 {
        out.append("0");
        out.append("0");
    } else if v < 256 {
        out.append("0");
    }
    push_hex_u64(out, v as u64);
    proof {
        if v >= 256 {
            lemma_hex_digits_grow(v as int);
        }
        assert(final(out)@ =~= old(out)@ + hex_digits_pad3(v as int));
    }
}

/// The hexadecimal rendering of a number of two hundred fifty-six or more
/// has at least three digits.
proof fn lemma_hex_digits_grow(v: int)
    requires
        v >= 256,
    ensures
        hex_digits(v).len() >= 3,
    decreases v,
{
    if v / 16 >= 256 {
        lemma_hex_digits_grow(v / 16);
    } else {
        assert(v / 16 >= 16);
        assert(hex_digits(v / 16) == hex_digits(v / 16 / 16).push(digit_char(v / 16 % 16)));
        assert(v / 16 / 16 < 16);
        assert(hex_digits(v / 16 / 16).len() == 1);
    }
    assert(hex_digits(v) == hex_digits(v / 16).push(digit_char(v % 16)));
}

} // verus!
