//! Verified text rendering: decimal numbers, fixed-width uppercase
//! hexadecimal, and fixed-point magnitudes with exactly four fractional
//! digits.

use vstd::prelude::*;
use vstd::string::StrSliceExecFns;
use vstd::string::StringExecFns;

verus! {

/// The character for the decimal digit `d` (`d < 10`).
pub open spec fn digit_char(d: nat) -> char {
    if d == 0 {
        '0'
    } else if d == 1 {
        '1'
    } else if d == 2 {
        '2'
    } else if d == 3 {
        '3'
    } else if d == 4 {
        '4'
    } else if d == 5 {
        '5'
    } else if d == 6 {
        '6'
    } else if d == 7 {
        '7'
    } else if d == 8 {
        '8'
    } else {
        '9'
    }
}

/// The uppercase character for the hexadecimal digit `d` (`d < 16`).
pub open spec fn hex_digit_char(d: nat) -> char {
    if d < 10 {
        digit_char(d)
    } else if d == 10 {
        'A'
    } else if d == 11 {
        'B'
    } else if d == 12 {
        'C'
    } else if d == 13 {
        'D'
    } else if d == 14 {
        'E'
    } else {
        'F'
    }
}

/// Whether `c` is a decimal digit character.
pub open spec fn is_dec_digit(c: char) -> bool {
    c == '0' || c == '1' || c == '2' || c == '3' || c == '4' || c == '5' || c == '6' || c == '7'
        || c == '8' || c == '9'
}

/// Whether `c` is an uppercase hexadecimal digit character.
pub open spec fn is_upper_hex_digit(c: char) -> bool {
    is_dec_digit(c) || c == 'A' || c == 'B' || c == 'C' || c == 'D' || c == 'E' || c == 'F'
}

/// The usual decimal rendering of `n`: most significant digit first, no
/// leading zeros, a single `'0'` for zero.
pub open spec fn dec_view(n: nat) -> Seq<char>
    decreases n,
{
    if n < 10 {
        seq![digit_char(n)]
    } else {
        dec_view(n / 10) + seq![digit_char(n % 10)]
    }
}

/// Every character of `dec_view` is a decimal digit, and there is at least
/// one.
pub proof fn lemma_dec_view_digits(n: nat)
    ensures
        dec_view(n).len() >= 1,
        forall|i: int| 0 <= i < dec_view(n).len() ==> is_dec_digit(#[trigger] dec_view(n)[i]),
    decreases n,
{
    if n >= 10 {
        lemma_dec_view_digits(n / 10);
    }
}

/// The one-character string for the decimal digit `d`.
pub fn digit_str(d: u64) -> (s: &'static str)
    requires
        d < 10,
    ensures
        s@ =~= seq![digit_char(d as nat)],
{
    let s: &'static str = if d == 0 {
        "0"
    } else if d == 1 {
        "1"
    } else if d == 2 {
        "2"
    } else if d == 3 {
        "3"
    } else if d == 4 {
        "4"
    } else if d == 5 {
        "5"
    } else if d == 6 {
        "6"
    } else if d == 7 {
        "7"
    } else if d == 8 {
        "8"
    } else {
        "9"
    };
    proof {
        reveal_strlit("0");
        reveal_strlit("1");
        reveal_strlit("2");
        reveal_strlit("3");
        reveal_strlit("4");
        reveal_strlit("5");
        reveal_strlit("6");
        reveal_strlit("7");
        reveal_strlit("8");
        reveal_strlit("9");
    }
    s
}

/// The one-character string for the uppercase hexadecimal digit `d`.
pub fn hex_digit_str(d: u16) -> (s: &'static str)
    requires
        d < 16,
    ensures
        s@ =~= seq![hex_digit_char(d as nat)],
{
    if d < 10 {
        digit_str(d as u64)
    } else {
        let s: &'static str = if d == 10 {
            "A"
        } else if d == 11 {
            "B"
        } else if d == 12 {
            "C"
        } else if d == 13 {
            "D"
        } else if d == 14 {
            "E"
        } else {
            "F"
        };
        proof {
            reveal_strlit("A");
            reveal_strlit("B");
            reveal_strlit("C");
            reveal_strlit("D");
            reveal_strlit("E");
            reveal_strlit("F");
        }
        s
    }
}

/// Renders `n` in decimal, as `dec_view` describes.
pub fn u64_dec(n: u64) -> (s: String)
    ensures
        s@ == dec_view(n as nat),
    decreases n,
{
    if n < 10 {
        let s = digit_str(n).to_owned();
        proof {
            assert(s@ =~= dec_view(n as nat));
        }
        s
    } else {
        let mut s = u64_dec(n / 10);
        s.append(digit_str(n % 10));
        proof {
            assert(s@ =~= dec_view(n as nat));
        }
        s
    }
}

/// The four uppercase hexadecimal digits of `v`, most significant first.
pub open spec fn hex4_view(v: u16) -> Seq<char> {
    seq![
        hex_digit_char((v as nat / 4096) % 16),
        hex_digit_char((v as nat / 256) % 16),
        hex_digit_char((v as nat / 16) % 16),
        hex_digit_char(v as nat % 16),
    ]
}

/// `hex4_view` is exactly four characters long, each an uppercase
/// hexadecimal digit.
pub proof fn lemma_hex4_shape(v: u16)
    ensures
        hex4_view(v).len() == 4,
        forall|i: int| 0 <= i < 4 ==> is_upper_hex_digit(#[trigger] hex4_view(v)[i]),
{
}

/// Renders `v` as exactly four uppercase hexadecimal digits, zero-padded.
pub fn hex4(v: u16) -> (s: String)
    ensures
        s@ == hex4_view(v),
{
    let mut s = hex_digit_str((v / 4096) % 16).to_owned();
    s.append(hex_digit_str((v / 256) % 16));
    s.append(hex_digit_str((v / 16) % 16));
    s.append(hex_digit_str(v % 16));
    proof {
        assert(s@ =~= hex4_view(v));
    }
    s
}

/// The four fractional digits of `m` ten-thousandths (`m < 10000`),
/// zero-padded on the left.
pub open spec fn frac4_view(m: nat) -> Seq<char> {
    seq![
        digit_char((m / 1000) % 10),
        digit_char((m / 100) % 10),
        digit_char((m / 10) % 10),
        digit_char(m % 10),
    ]
}

/// The fixed-point rendering of a magnitude given in ten-thousandths: the
/// integer part in decimal, a point, then exactly four fractional digits.
pub open spec fn analog_view(m: u16) -> Seq<char> {
    dec_view((m / 10000) as nat) + "."@ + frac4_view((m % 10000) as nat)
}

/// Renders a magnitude given in ten-thousandths with exactly four digits
/// after the decimal point.
pub fn analog_fixed4(m: u16) -> (s: String)
    ensures
        s@ == analog_view(m),
{
    let mut s = u64_dec((m / 10000) as u64);
    s.append(".");
    let frac: u16 = m % 10000;
    s.append(digit_str(((frac / 1000) % 10) as u64));
    s.append(digit_str(((frac / 100) % 10) as u64));
    s.append(digit_str(((frac / 10) % 10) as u64));
    s.append(digit_str((frac % 10) as u64));
    proof {
        assert(s@ =~= analog_view(m));
    }
    s
}

/// However large the magnitude, `analog_view` ends in a point followed by
/// exactly four decimal digits, and no point occurs anywhere before it.
pub proof fn lemma_analog_four_decimals(m: u16)
    ensures
        analog_view(m).len() >= 6,
        analog_view(m)[analog_view(m).len() - 5] == '.',
        forall|i: int|
            analog_view(m).len() - 4 <= i < analog_view(m).len() ==> is_dec_digit(
                #[trigger] analog_view(m)[i],
            ),
        forall|i: int| 0 <= i < analog_view(m).len() - 5 ==> #[trigger] analog_view(m)[i] != '.',
{
    reveal_strlit(".");
    lemma_dec_view_digits((m / 10000) as nat);
    assert("."@.len() == 1);
}

} // verus!
