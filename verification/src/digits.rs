//! Decimal rendering of integer pixel sizes, used by the collapse style text.

use vstd::prelude::*;

verus! {

/// The character for a single decimal digit value.
pub open spec fn dec_digit_char(d: int) -> char {
    ((0x30 + d) as u8) as char
}

/// The decimal digit sequence of a natural number, most significant first.
pub open spec fn dec_seq(n: nat) -> Seq<char>
    decreases n,
{
    if n < 10 {
        seq![dec_digit_char(n as int)]
    } else {
        dec_seq(n / 10) + seq![dec_digit_char((n % 10) as int)]
    }
}

/// The decimal rendering of an integer: a leading minus sign when negative.
pub open spec fn dec_int_seq(i: int) -> Seq<char> {
    if i < 0 {
        seq!['-'] + dec_seq((-i) as nat)
    } else {
        dec_seq(i as nat)
    }
}

/// The one-character string for a single decimal digit value.
fn digit_str(d: u32) -> (s: &'static str)
    requires
        d < 10,
    ensures
        s@ == seq![dec_digit_char(d as int)],
{
    proof {
        reveal_strlit("0");
        reveal_strlit("1");
        reveal_strlit("2");
        reveal_strlit("3");
        reveal_strlit("4");
        reveal_strlit("5");
        reveal_strlit("6");
        reveal_strlit("7");
        reveal_strlit("8");
        reveal_strlit("9");
    }
    match d {
        0 => "0",
        1 => "1",
        2 => "2",
        3 => "3",
        4 => "4",
        5 => "5",
        6 => "6",
        7 => "7",
        8 => "8",
        _ => "9",
    }
}

/// The decimal digits of `n`, most significant first.
pub fn u32_dec_string(n: u32) -> (s: String)
    ensures
        s@ == dec_seq(n as nat),
    decreases n,
{
    if n < 10 {
        String::from_str(digit_str(n))
    } else {
        let prefix = u32_dec_string(n / 10);
        prefix.concat(digit_str(n % 10))
    }
}

/// The decimal rendering of `i`, with a leading minus sign when negative.
pub fn i32_dec_string(i: i32) -> (s: String)
    ensures
        s@ == dec_int_seq(i as int),
{
    proof {
        reveal_strlit("-");
    }
    if i >= 0 {
        u32_dec_string(i as u32)
    } else {
        let magnitude: u32 = (-(i as i64)) as u32;
        let digits = u32_dec_string(magnitude);
        String::from_str("-").concat(digits.as_str())
    }
}

} // verus!
