//! Building text: numbers in decimal and hexadecimal, and padding.

use vstd::prelude::*;
use vstd::string::*;

verus! {

/// The character of one hexadecimal digit, in upper case.
pub open spec fn digit_char(d: nat) -> char {
    if d == 0 {
        '0'
    } else if d == 1 {
        '1'
    } else if d == 2 {
        '2'
    } else if d == 3 {
        '3'
    } else if d == 4 {
        '4'
    } else if d == 5 {
        '5'
    } else if d == 6 {
        '6'
    } else if d == 7 {
        '7'
    } else if d == 8 {
        '8'
    } else if d == 9 {
        '9'
    } else if d == 10 {
        'A'
    } else if d == 11 {
        'B'
    } else if d == 12 {
        'C'
    } else if d == 13 {
        'D'
    } else if d == 14 {
        'E'
    } else {
        'F'
    }
}

/// The last `width` hexadecimal digits of `v`.
pub open spec fn hex(v: nat, width: nat) -> Seq<char>
    decreases width,
{
    if width == 0 {
        Seq::empty()
    } else {
        hex(v / 16, (width - 1) as nat).push(digit_char(v % 16))
    }
}

/// The character of one hexadecimal digit, in lower case.
pub open spec fn low_digit_char(d: nat) -> char {
    if d == 10 {
        'a'
    } else if d == 11 {
        'b'
    } else if d == 12 {
        'c'
    } else if d == 13 {
        'd'
    } else if d == 14 {
        'e'
    } else if d >= 15 {
        'f'
    } else {
        digit_char(d)
    }
}

/// The last `width` hexadecimal digits of `v`, in lower case.
pub open spec fn low_hex(v: nat, width: nat) -> Seq<char>
    decreases width,
{
    if width == 0 {
        Seq::empty()
    } else {
        low_hex(v / 16, (width - 1) as nat).push(low_digit_char(v % 16))
    }
}

/// `v` in decimal, without leading zeros.
pub open spec fn dec(v: nat) -> Seq<char>
    decreases v,
{
    if v < 10 {
        seq![digit_char(v)]
    } else {
        dec(v / 10).push(digit_char(v % 10))
    }
}

pub open spec fn spaces(n: nat) -> Seq<char> {
    Seq::new(n, |i: int| ' ')
}

/// `s`, with spaces behind it up to `width` characters.
pub open spec fn left_aligned(s: Seq<char>, width: nat) -> Seq<char> {
    if s.len() >= width { s } else { s + spaces((width - s.len()) as nat) }
}

/// `s`, with spaces in front of it up to `width` characters.
pub open spec fn right_aligned(s: Seq<char>, width: nat) -> Seq<char> {
    if s.len() >= width { s } else { spaces((width - s.len()) as nat) + s }
}

fn digit_text(d: u8) -> (text: &'static str)
    requires
        d < 16,
    ensures
        text@ == seq![digit_char(d as nat)],
{
    proof {
        reveal_strlit("0");
        reveal_strlit("1");
        reveal_strlit("2");
        reveal_strlit("3");
        reveal_strlit("4");
        reveal_strlit("5");
        reveal_strlit("6");
        reveal_strlit("7");
        reveal_strlit("8");
        reveal_strlit("9");
        reveal_strlit("A");
        reveal_strlit("B");
        reveal_strlit("C");
        reveal_strlit("D");
        reveal_strlit("E");
        reveal_strlit("F");
    }
    let text: &'static str = match d {
        0 => "0",
        1 => "1",
        2 => "2",
        3 => "3",
        4 => "4",
        5 => "5",
        6 => "6",
        7 => "7",
        8 => "8",
        9 => "9",
        10 => "A",
        11 => "B",
        12 => "C",
        13 => "D",
        14 => "E",
        _ => "F",
    };
    assert(text@ =~= seq![digit_char(d as nat)]);
    text
}

/// Appends the last `width` hexadecimal digits of `v`.
pub fn push_hex(out: &mut String, v: u64, width: u32)
    ensures
        final(out)@ == old(out)@ + hex(v as nat, width as nat),
    decreases width,
{
    if width == 0 {
        assert(out@ =~= old(out)@ + hex(v as nat, 0));
    } else {
        push_hex(out, v / 16, width - 1);
        let ghost before = out@;
        out.append(digit_text((v % 16) as u8));
        assert(out@ =~= old(out)@ + hex(v as nat, width as nat));
    }
}

fn low_digit_text(d: u8) -> (text: &'static str)
    requires
        d < 16,
    ensures
        text@ == seq![low_digit_char(d as nat)],
{
    proof {
        reveal_strlit("a");
        reveal_strlit("b");
        reveal_strlit("c");
        reveal_strlit("d");
        reveal_strlit("e");
        reveal_strlit("f");
    }
    let text: &'static str = match d {
        10 => "a",
        11 => "b",
        12 => "c",
        13 => "d",
        14 => "e",
        15 => "f",
        _ => digit_text(d),
    };
    assert(text@ =~= seq![low_digit_char(d as nat)]);
    text
}

/// Appends the last `width` hexadecimal digits of `v`, in lower case.
pub fn push_low_hex(out: &mut String, v: u64, width: u32)
    ensures
        final(out)@ == old(out)@ + low_hex(v as nat, width as nat),
    decreases width,
{
    if width == 0 {
        assert(out@ =~= old(out)@ + low_hex(v as nat, 0));
    } else {
        push_low_hex(out, v / 16, width - 1);
        out.append(low_digit_text((v % 16) as u8));
        assert(out@ =~= old(out)@ + low_hex(v as nat, width as nat));
    }
}

/// Appends `v` in decimal.
pub fn push_dec(out: &mut String, v: u64)
    ensures
        final(out)@ == old(out)@ + dec(v as nat),
    decreases v,
{
    if v < 10 {
        out.append(digit_text(v as u8));
    } else {
        push_dec(out, v / 10);
        out.append(digit_text((v % 10) as u8));
        assert(out@ =~= old(out)@ + dec(v as nat));
    }
}

/// Appends `n` spaces.
pub fn push_spaces(out: &mut String, n: usize)
    ensures
        final(out)@ == old(out)@ + spaces(n as nat),
    decreases n,
{
    if n == 0 {
        assert(out@ =~= old(out)@ + spaces(0));
    } else {
        push_spaces(out, n - 1);
        proof {
            reveal_strlit(" ");
        }
        out.append(" ");
        assert(out@ =~= old(out)@ + spaces(n as nat));
    }
}

/// Appends `s`, left-aligned in `width` characters.
pub fn push_left(out: &mut String, s: &str, width: usize)
    ensures
        final(out)@ == old(out)@ + left_aligned(s@, width as nat),
{
    out.append(s);
    let len: usize = s.unicode_len();
    if len < width {
        push_spaces(out, width - len);
    }
    assert(out@ =~= old(out)@ + left_aligned(s@, width as nat));
}

/// Appends `s`, right-aligned in `width` characters.
pub fn push_right(out: &mut String, s: &str, width: usize)
    ensures
        final(out)@ == old(out)@ + right_aligned(s@, width as nat),
{
    let len: usize = s.unicode_len();
    if len < width {
        push_spaces(out, width - len);
    }
    out.append(s);
    assert(out@ =~= old(out)@ + right_aligned(s@, width as nat));
}

/// `v` in decimal.
pub fn dec_text(v: u64) -> (text: String)
    ensures
        text@ == dec(v as nat),
{
    let mut text: String = String::new();
    push_dec(&mut text, v);
    assert(text@ =~= dec(v as nat));
    text
}

/// `$` and two hexadecimal digits.
pub open spec fn dollar_hex2(v: u8) -> Seq<char> {
    "$"@ + hex(v as nat, 2)
}

pub fn dollar_hex2_text(v: u8) -> (text: String)
    ensures
        text@ == dollar_hex2(v),
{
    let mut text: String = "$".to_owned();
    push_hex(&mut text, v as u64, 2);
    text
}

/// `prefix` and a decimal number.
pub fn prefixed_dec(prefix: &str, v: u64) -> (text: String)
    ensures
        text@ == prefix@ + dec(v as nat),
{
    let mut text: String = prefix.to_owned();
    push_dec(&mut text, v);
    text
}

} // verus!
