//! Numbers as text: hexadecimal and decimal digits, and padding.

use vstd::prelude::*;

verus! {

/// The digit for a value below 16, capitals for ten and up.
pub open spec fn hex_digit(n: int) -> char {
    if n == 0 {
        '0'
    } else if n == 1 {
        '1'
    } else if n == 2 {
        '2'
    } else if n == 3 {
        '3'
    } else if n == 4 {
        '4'
    } else if n == 5 {
        '5'
    } else if n == 6 {
        '6'
    } else if n == 7 {
        '7'
    } else if n == 8 {
        '8'
    } else if n == 9 {
        '9'
    } else if n == 10 {
        'A'
    } else if n == 11 {
        'B'
    } else if n == 12 {
        'C'
    } else if n == 13 {
        'D'
    } else if n == 14 {
        'E'
    } else {
        'F'
    }
}

/// A byte as two hexadecimal digits.
pub open spec fn hex_byte(v: u8) -> Seq<char> {
    seq![hex_digit(v as int / 16), hex_digit(v as int % 16)]
}

/// A word as four hexadecimal digits.
pub open spec fn hex_word(v: u16) -> Seq<char> {
    hex_byte((v / 256) as u8) + hex_byte((v % 256) as u8)
}

/// A number in hexadecimal digits, as many as it needs.
pub open spec fn hex_number(v: nat) -> Seq<char>
    decreases v,
{
    if v < 16 {
        seq![hex_digit(v as int)]
    } else {
        hex_number(v / 16).push(hex_digit(v as int % 16))
    }
}

/// A number in decimal digits, as many as it needs.
pub open spec fn decimal(v: nat) -> Seq<char>
    decreases v,
{
    if v < 10 {
        seq![hex_digit(v as int)]
    } else {
        decimal(v / 10).push(hex_digit(v as int % 10))
    }
}

/// `count` spaces.
pub open spec fn spaces(count: nat) -> Seq<char> {
    Seq::new(count, |i: int| ' ')
}

/// The text with spaces behind it up to `width` characters; a longer text
/// stays as it is.
pub open spec fn pad_right(text: Seq<char>, width: nat) -> Seq<char> {
    if text.len() >= width {
        text
    } else {
        text + spaces((width - text.len()) as nat)
    }
}

/// The text with spaces before it up to `width` characters; a longer text
/// stays as it is.
pub open spec fn pad_left(text: Seq<char>, width: nat) -> Seq<char> {
    if text.len() >= width {
        text
    } else {
        spaces((width - text.len()) as nat) + text
    }
}

/// The digit for a value below 16, as text.
pub fn digit_str(n: u8) -> (s: &'static str)
    requires
        n < 16,
    ensures
        s@ == seq![hex_digit(n as int)],
{
    proof {
        reveal_strlit("0");
        reveal_strlit("1");
        reveal_strlit("2");
        reveal_strlit("3");
        reveal_strlit("4");
        reveal_strlit("5");
        reveal_strlit("6");
        reveal_strlit("7");
        reveal_strlit("8");
        reveal_strlit("9");
        reveal_strlit("A");
        reveal_strlit("B");
        reveal_strlit("C");
        reveal_strlit("D");
        reveal_strlit("E");
        reveal_strlit("F");
    }
    let s = match n {
        0 => "0",
        1 => "1",
        2 => "2",
        3 => "3",
        4 => "4",
        5 => "5",
        6 => "6",
        7 => "7",
        8 => "8",
        9 => "9",
        10 => "A",
        11 => "B",
        12 => "C",
        13 => "D",
        14 => "E",
        _ => "F",
    };
    assert(s@ =~= seq![hex_digit(n as int)]);
    s
}

/// Appends a byte as two hexadecimal digits.
pub fn push_hex_byte(out: &mut String, v: u8)
    ensures
        final(out)@ == old(out)@ + hex_byte(v),
{
    out.append(digit_str(v / 16));
    out.append(digit_str(v % 16));
    assert(out@ =~= old(out)@ + hex_byte(v));
}

/// Appends a word as four hexadecimal digits.
pub fn push_hex_word(out: &mut String, v: u16)
    ensures
        final(out)@ == old(out)@ + hex_word(v),
{
    push_hex_byte(out, (v / 256) as u8);
    push_hex_byte(out, (v % 256) as u8);
    assert(out@ =~= old(out)@ + hex_word(v));
}

/// Appends a number in hexadecimal digits.
pub fn push_hex_number(out: &mut String, v: u16)
    ensures
        final(out)@ == old(out)@ + hex_number(v as nat),
    decreases v,
{
    if v >= 16 {
        push_hex_number(out, v / 16);
    }
    out.append(digit_str((v % 16) as u8));
    assert(out@ =~= old(out)@ + hex_number(v as nat));
}

/// Appends a number in decimal digits.
pub fn push_decimal(out: &mut String, v: usize)
    ensures
        final(out)@ == old(out)@ + decimal(v as nat),
    decreases v,
{
    if v >= 10 {
        push_decimal(out, v / 10);
    }
    out.append(digit_str((v % 10) as u8));
    assert(out@ =~= old(out)@ + decimal(v as nat));
}

/// Appends `count` spaces.
pub fn push_spaces(out: &mut String, count: usize)
    ensures
        final(out)@ == old(out)@ + spaces(count as nat),
{
    proof {
        reveal_strlit(" ");
    }
    let mut i: usize = 0;
    assert(out@ =~= old(out)@ + spaces(0));
    while i < count
        invariant
            i <= count,
            out@ == old(out)@ + spaces(i as nat),
            " "@ == seq![' '],
        decreases count - i,
    {
        out.append(" ");
        i += 1;
        assert(out@ =~= old(out)@ + spaces(i as nat));
    }
}

/// Appends a text and the spaces that fill it up to `width` characters.
pub fn push_padded_right(out: &mut String, text: &str, width: usize)
    ensures
        final(out)@ == old(out)@ + pad_right(text@, width as nat),
{
    let len = text.unicode_len();
    out.append(text);
    if len < width {
        push_spaces(out, width - len);
        assert(out@ =~= old(out)@ + pad_right(text@, width as nat));
    }
}

/// Appends the spaces that fill a text up to `width` characters, and the
/// text.
pub fn push_padded_left(out: &mut String, text: &str, width: usize)
    ensures
        final(out)@ == old(out)@ + pad_left(text@, width as nat),
{
    let len = text.unicode_len();
    if len < width {
        push_spaces(out, width - len);
    }
    out.append(text);
    assert(out@ =~= old(out)@ + pad_left(text@, width as nat));
}

} // verus!
