use vstd::prelude::*;

verus! {

/// The character of one hexadecimal digit, letters in upper case.
pub open spec fn upper_hex_digit(d: int) -> char {
    if d == 0 {
        '0'
    } else if d == 1 {
        '1'
    } else if d == 2 {
        '2'
    } else if d == 3 {
        '3'
    } else if d == 4 {
        '4'
    } else if d == 5 {
        '5'
    } else if d == 6 {
        '6'
    } else if d == 7 {
        '7'
    } else if d == 8 {
        '8'
    } else if d == 9 {
        '9'
    } else if d == 10 {
        'A'
    } else if d == 11 {
        'B'
    } else if d == 12 {
        'C'
    } else if d == 13 {
        'D'
    } else if d == 14 {
        'E'
    } else {
        'F'
    }
}

/// The character of one hexadecimal digit, letters in lower case.
pub open spec fn lower_hex_digit(d: int) -> char {
    if d == 10 {
        'a'
    } else if d == 11 {
        'b'
    } else if d == 12 {
        'c'
    } else if d == 13 {
        'd'
    } else if d == 14 {
        'e'
    } else if d == 15 {
        'f'
    } else {
        upper_hex_digit(d)
    }
}

/// A number in decimal, without leading zeros.
pub open spec fn decimal_digits(value: nat) -> Seq<char>
    decreases value,
{
    if value < 10 {
        seq![upper_hex_digit(value as int)]
    } else {
        decimal_digits(value / 10).push(upper_hex_digit((value % 10) as int))
    }
}

/// A byte in decimal, without leading zeros.
pub open spec fn decimal_text(value: u8) -> Seq<char> {
    decimal_digits(value as nat)
}

/// A 16-bit value in upper-case hexadecimal, without prefix or leading zeros.
pub open spec fn upper_hex_text(value: u16) -> Seq<char> {
    let v = value as int;
    if v >= 0x1000 {
        seq![
            upper_hex_digit(v / 0x1000),
            upper_hex_digit((v / 0x100) % 16),
            upper_hex_digit((v / 0x10) % 16),
            upper_hex_digit(v % 16),
        ]
    } else if v >= 0x100 {
        seq![upper_hex_digit(v / 0x100), upper_hex_digit((v / 0x10) % 16), upper_hex_digit(v % 16)]
    } else if v >= 0x10 {
        seq![upper_hex_digit(v / 0x10), upper_hex_digit(v % 16)]
    } else {
        seq![upper_hex_digit(v)]
    }
}

/// A byte in lower-case hexadecimal, without prefix or leading zeros.
pub open spec fn lower_hex_text(value: u8) -> Seq<char> {
    let v = value as int;
    if v >= 0x10 {
        seq![lower_hex_digit(v / 0x10), lower_hex_digit(v % 16)]
    } else {
        seq![lower_hex_digit(v)]
    }
}

/// The text of one hexadecimal digit, letters in upper case.
pub fn upper_hex_str(d: u8) -> (s: &'static str)
    requires
        d < 16,
    ensures
        s@ == seq![upper_hex_digit(d as int)],
{
    proof {
        reveal_strlit("0");
        reveal_strlit("1");
        reveal_strlit("2");
        reveal_strlit("3");
        reveal_strlit("4");
        reveal_strlit("5");
        reveal_strlit("6");
        reveal_strlit("7");
        reveal_strlit("8");
        reveal_strlit("9");
        reveal_strlit("A");
        reveal_strlit("B");
        reveal_strlit("C");
        reveal_strlit("D");
        reveal_strlit("E");
        reveal_strlit("F");
    }
    let s = if d == 0 {
        "0"
    } else if d == 1 {
        "1"
    } else if d == 2 {
        "2"
    } else if d == 3 {
        "3"
    } else if d == 4 {
        "4"
    } else if d == 5 {
        "5"
    } else if d == 6 {
        "6"
    } else if d == 7 {
        "7"
    } else if d == 8 {
        "8"
    } else if d == 9 {
        "9"
    } else if d == 10 {
        "A"
    } else if d == 11 {
        "B"
    } else if d == 12 {
        "C"
    } else if d == 13 {
        "D"
    } else if d == 14 {
        "E"
    } else {
        "F"
    };
    assert(s@ =~= seq![upper_hex_digit(d as int)]);
    s
}

/// The text of one hexadecimal digit, letters in lower case.
pub fn lower_hex_str(d: u8) -> (s: &'static str)
    requires
        d < 16,
    ensures
        s@ == seq![lower_hex_digit(d as int)],
{
    proof {
        reveal_strlit("a");
        reveal_strlit("b");
        reveal_strlit("c");
        reveal_strlit("d");
        reveal_strlit("e");
        reveal_strlit("f");
    }
    let s = if d == 10 {
        "a"
    } else if d == 11 {
        "b"
    } else if d == 12 {
        "c"
    } else if d == 13 {
        "d"
    } else if d == 14 {
        "e"
    } else if d == 15 {
        "f"
    } else {
        upper_hex_str(d)
    };
    assert(s@ =~= seq![lower_hex_digit(d as int)]);
    s
}

/// Appends a number in decimal.
pub fn append_number(text: &mut String, value: usize)
    ensures
        final(text)@ == old(text)@ + decimal_digits(value as nat),
    decreases value,
{
    if value >= 10 {
        append_number(text, value / 10);
    }
    text.append(upper_hex_str((value % 10) as u8));
    assert(final(text)@ =~= old(text)@ + decimal_digits(value as nat));
}

/// Appends a byte in decimal.
pub fn append_decimal(text: &mut String, value: u8)
    ensures
        final(text)@ == old(text)@ + decimal_text(value),
{
    append_number(text, value as usize);
}

/// Appends a 16-bit value in upper-case hexadecimal.
pub fn append_upper_hex(text: &mut String, value: u16)
    ensures
        final(text)@ == old(text)@ + upper_hex_text(value),
{
    if value >= 0x1000 {
        text.append(upper_hex_str((value / 0x1000) as u8));
    }
    if value >= 0x100 {
        text.append(upper_hex_str(((value / 0x100) % 16) as u8));
    }
    if value >= 0x10 {
        text.append(upper_hex_str(((value / 0x10) % 16) as u8));
    }
    text.append(upper_hex_str((value % 16) as u8));
    assert(final(text)@ =~= old(text)@ + upper_hex_text(value));
}

/// Appends a byte in lower-case hexadecimal.
pub fn append_lower_hex(text: &mut String, value: u8)
    ensures
        final(text)@ == old(text)@ + lower_hex_text(value),
{
    if value >= 0x10 {
        text.append(lower_hex_str(value / 0x10));
    }
    text.append(lower_hex_str(value % 16));
    assert(final(text)@ =~= old(text)@ + lower_hex_text(value));
}

} // verus!
