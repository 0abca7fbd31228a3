//! Decimal and hexadecimal digit text.
use vstd::prelude::*;

verus! {

/// The character of a digit below sixteen, lower case for ten and above.
pub open spec fn digit_char(d: nat) -> char {
    if d == 0 { '0' } else if d == 1 { '1' } else if d == 2 { '2' } else if d == 3 { '3' }
    else if d == 4 { '4' } else if d == 5 { '5' } else if d == 6 { '6' } else if d == 7 { '7' }
    else if d == 8 { '8' } else if d == 9 { '9' } else if d == 10 { 'a' } else if d == 11 { 'b' }
    else if d == 12 { 'c' } else if d == 13 { 'd' } else if d == 14 { 'e' } else { 'f' }
}

/// The decimal text of `n`, without leading zeros.
pub open spec fn dec_text(n: nat) -> Seq<char>
    decreases n,
{
    if n < 10 {
        seq![digit_char(n)]
    } else {
        dec_text(n / 10).push(digit_char(n % 10))
    }
}

/// The last `w` decimal digits of `n`: for `n < 10^w`, `n` padded with zeros to `w` digits.
pub open spec fn fixed_digits(n: nat, w: nat) -> Seq<char>
    decreases w,
{
    if w == 0 {
        Seq::empty()
    } else {
        fixed_digits(n / 10, (w - 1) as nat).push(digit_char(n % 10))
    }
}

/// The text of a signed integer, with a leading `-` when negative.
pub open spec fn int_text(i: int) -> Seq<char> {
    if i < 0 {
        seq!['-'] + dec_text((-i) as nat)
    } else {
        dec_text(i as nat)
    }
}

/// Two lower-case hex digits of a byte.
pub open spec fn hex_pair(b: u8) -> Seq<char> {
    seq![digit_char(b as nat / 16), digit_char(b as nat % 16)]
}

/// The one-character string of a digit below sixteen.
pub fn digit_str(d: u8) -> (r: &'static str)
    requires
        d < 16,
    ensures
        r@ == seq![digit_char(d as nat)],
{
    match d {
        0 => {
            proof { reveal_strlit("0"); }
            "0"
        },
        1 => {
            proof { reveal_strlit("1"); }
            "1"
        },
        2 => {
            proof { reveal_strlit("2"); }
            "2"
        },
        3 => {
            proof { reveal_strlit("3"); }
            "3"
        },
        4 => {
            proof { reveal_strlit("4"); }
            "4"
        },
        5 => {
            proof { reveal_strlit("5"); }
            "5"
        },
        6 => {
            proof { reveal_strlit("6"); }
            "6"
        },
        7 => {
            proof { reveal_strlit("7"); }
            "7"
        },
        8 => {
            proof { reveal_strlit("8"); }
            "8"
        },
        9 => {
            proof { reveal_strlit("9"); }
            "9"
        },
        10 => {
            proof { reveal_strlit("a"); }
            "a"
        },
        11 => {
            proof { reveal_strlit("b"); }
            "b"
        },
        12 => {
            proof { reveal_strlit("c"); }
            "c"
        },
        13 => {
            proof { reveal_strlit("d"); }
            "d"
        },
        14 => {
            proof { reveal_strlit("e"); }
            "e"
        },
        _ => {
            proof { reveal_strlit("f"); }
            "f"
        },
    }
}

/// Appends the decimal text of `n`.
pub fn append_dec(out: &mut String, n: u64)
    ensures
        final(out)@ == old(out)@ + dec_text(n as nat),
    decreases n,
{
    if n >= 10 {
        append_dec(out, n / 10);
    }
    out.append(digit_str((n % 10) as u8));
}

/// Appends the last `w` decimal digits of `n`.
pub fn append_fixed(out: &mut String, n: u64, w: u8)
    ensures
        final(out)@ == old(out)@ + fixed_digits(n as nat, w as nat),
    decreases w,
{
    if w > 0 {
        append_fixed(out, n / 10, w - 1);
        out.append(digit_str((n % 10) as u8));
    }
}

/// Appends the decimal text of a signed integer.
pub fn append_int(out: &mut String, i: i64)
    ensures
        final(out)@ == old(out)@ + int_text(i as int),
{
    if i < 0 {
        proof { reveal_strlit("-"); }
        out.append("-");
        let m: u64 = (-(i as i128)) as u64;
        append_dec(out, m);
        assert(final(out)@ =~= old(out)@ + int_text(i as int));
    } else {
        append_dec(out, i as u64);
    }
}

/// Appends two lower-case hex digits of a byte.
pub fn append_hex_pair(out: &mut String, b: u8)
    ensures
        final(out)@ == old(out)@ + hex_pair(b),
{
    out.append(digit_str(b / 16));
    out.append(digit_str(b % 16));
    assert(final(out)@ =~= old(out)@ + hex_pair(b));
}

} // verus!
