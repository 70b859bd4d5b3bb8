//! Decimal-digit strings: the shape shared by TOTP codes and backup codes,
//! and the zero-padded decimal rendering of a code value.

use vstd::prelude::*;

verus! {

/// The ten decimal digit characters.
pub open spec fn is_dec_char(c: char) -> bool {
    c == '0' || c == '1' || c == '2' || c == '3' || c == '4' || c == '5' || c == '6' || c == '7'
        || c == '8' || c == '9'
}

/// The character for one decimal digit.
pub open spec fn dec_char(d: nat) -> char
    recommends
        d < 10,
{
    if d == 0 {
        '0'
    } else if d == 1 {
        '1'
    } else if d == 2 {
        '2'
    } else if d == 3 {
        '3'
    } else if d == 4 {
        '4'
    } else if d == 5 {
        '5'
    } else if d == 6 {
        '6'
    } else if d == 7 {
        '7'
    } else if d == 8 {
        '8'
    } else {
        '9'
    }
}

/// The last `len` decimal digits of `v`, most significant first, padded with
/// zeroes on the left up to exactly `len` characters.
pub open spec fn dec_seq(v: nat, len: nat) -> Seq<char>
    decreases len,
{
    if len == 0 {
        Seq::empty()
    } else {
        dec_seq(v / 10, (len - 1) as nat).push(dec_char(v % 10))
    }
}

/// A decimal rendering has exactly the asked-for length and holds decimal
/// digit characters only.
pub proof fn lemma_dec_seq_shape(v: nat, len: nat)
    ensures
        dec_seq(v, len).len() == len,
        forall|i: int| 0 <= i < len ==> is_dec_char(#[trigger] dec_seq(v, len)[i]),
    decreases len,
{
    if len > 0 {
        lemma_dec_seq_shape(v / 10, (len - 1) as nat);
    }
}

/// Ten to the power `e`.
pub open spec fn pow10(e: nat) -> nat
    decreases e,
{
    if e == 0 {
        1
    } else {
        10 * pow10((e - 1) as nat)
    }
}

pub proof fn lemma_pow10_le(a: nat, b: nat)
    requires
        a <= b,
    ensures
        pow10(a) <= pow10(b),
    decreases b,
{
    if a < b && b > 0 {
        lemma_pow10_le(a, (b - 1) as nat);
    }
}

/// The decimal digit a character stands for.
pub open spec fn char_digit(c: char) -> nat
    recommends
        is_dec_char(c),
{
    if c == '0' {
        0
    } else if c == '1' {
        1
    } else if c == '2' {
        2
    } else if c == '3' {
        3
    } else if c == '4' {
        4
    } else if c == '5' {
        5
    } else if c == '6' {
        6
    } else if c == '7' {
        7
    } else if c == '8' {
        8
    } else {
        9
    }
}

/// The numeric value of a decimal-digit string, most significant first.
pub open spec fn dec_value(s: Seq<char>) -> nat
    decreases s.len(),
{
    if s.len() == 0 {
        0
    } else {
        dec_value(s.drop_last()) * 10 + char_digit(s.last())
    }
}

/// Law: the rendering is faithful — read back as a number, the rendered
/// string is exactly `v` reduced to its last `len` decimal digits.
pub proof fn lemma_dec_seq_value(v: nat, len: nat)
    ensures
        dec_value(dec_seq(v, len)) == v % pow10(len),
    decreases len,
{
    if len == 0 {
        assert(v % 1 == 0);
    } else {
        lemma_dec_seq_value(v / 10, (len - 1) as nat);
        lemma_pow10_le(0, (len - 1) as nat);
        let p = pow10((len - 1) as nat);
        vstd::arithmetic::div_mod::lemma_mod_breakdown(v as int, 10, p as int);
        let s = dec_seq(v / 10, (len - 1) as nat);
        let d = dec_char(v % 10);
        assert(s.push(d).drop_last() =~= s);
        assert(char_digit(d) == v % 10);
    }
}

/// A single decimal digit as a one-character string slice.
pub(crate) fn digit_str(d: u8) -> (s: &'static str)
    requires
        d < 10,
    ensures
        s@ == seq![dec_char(d as nat)],
{
    if d == 0 {
        proof { reveal_strlit("0"); assert("0"@ =~= seq![dec_char(0)]); }
        "0"
    } else if d == 1 {
        proof { reveal_strlit("1"); assert("1"@ =~= seq![dec_char(1)]); }
        "1"
    } else if d == 2 {
        proof { reveal_strlit("2"); assert("2"@ =~= seq![dec_char(2)]); }
        "2"
    } else if d == 3 {
        proof { reveal_strlit("3"); assert("3"@ =~= seq![dec_char(3)]); }
        "3"
    } else if d == 4 {
        proof { reveal_strlit("4"); assert("4"@ =~= seq![dec_char(4)]); }
        "4"
    } else if d == 5 {
        proof { reveal_strlit("5"); assert("5"@ =~= seq![dec_char(5)]); }
        "5"
    } else if d == 6 {
        proof { reveal_strlit("6"); assert("6"@ =~= seq![dec_char(6)]); }
        "6"
    } else if d == 7 {
        proof { reveal_strlit("7"); assert("7"@ =~= seq![dec_char(7)]); }
        "7"
    } else if d == 8 {
        proof { reveal_strlit("8"); assert("8"@ =~= seq![dec_char(8)]); }
        "8"
    } else {
        proof { reveal_strlit("9"); assert("9"@ =~= seq![dec_char(9)]); }
        "9"
    }
}

/// Ten to the power `e`, as a machine integer.
pub fn pow10_u32(e: usize) -> (p: u32)
    requires
        e <= 9,
    ensures
        p == pow10(e as nat),
        p >= 1,
    decreases e,
{
    if e == 0 {
        1
    } else {
        let q = pow10_u32(e - 1);
        proof {
            lemma_pow10_le((e - 1) as nat, 8);
            reveal_with_fuel(pow10, 10);
            assert(pow10(8) == 100000000);
        }
        q * 10
    }
}

/// Renders `v` as exactly `len` decimal digits, zero-padded on the left;
/// only the last `len` digits of `v` appear.
pub fn dec_string(v: u64, len: usize) -> (s: String)
    ensures
        s@ == dec_seq(v as nat, len as nat),
    decreases len,
{
    if len == 0 {
        let s = String::new();
        proof { assert(s@ =~= dec_seq(v as nat, 0)); }
        s
    } else {
        let mut s = dec_string(v / 10, len - 1);
        s.append(digit_str((v % 10) as u8));
        proof { assert(s@ =~= dec_seq(v as nat, len as nat)); }
        s
    }
}

} // verus!
