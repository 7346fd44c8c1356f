//! Building display strings: decimal numbers, thousands separators and
//! prefixes of text.

use vstd::prelude::*;

verus! {

/// The character that shows the decimal digit `d`.
pub open spec fn digit_char(d: int) -> char {
    if d == 0 {
        '0'
    } else if d == 1 {
        '1'
    } else if d == 2 {
        '2'
    } else if d == 3 {
        '3'
    } else if d == 4 {
        '4'
    } else if d == 5 {
        '5'
    } else if d == 6 {
        '6'
    } else if d == 7 {
        '7'
    } else if d == 8 {
        '8'
    } else {
        '9'
    }
}

/// The decimal numeral of a natural number, most significant digit first and
/// without leading zeros.
pub open spec fn decimal(n: nat) -> Seq<char>
    decreases n,
{
    if n < 10 {
        seq![digit_char(n as int)]
    } else {
        decimal(n / 10).push(digit_char((n % 10) as int))
    }
}

/// The decimal numeral of an integer: a minus sign in front of negative
/// numbers, nothing in front of the others.
pub open spec fn signed_decimal(n: int) -> Seq<char> {
    if n < 0 {
        seq!['-'] + decimal((-n) as nat)
    } else {
        decimal(n as nat)
    }
}

/// Exactly three digits for a number below one thousand, zeros included.
pub open spec fn three_digits(n: nat) -> Seq<char> {
    seq![
        digit_char((n / 100) as int),
        digit_char(((n / 10) % 10) as int),
        digit_char((n % 10) as int),
    ]
}

/// The decimal numeral of a natural number with a comma between each group
/// of three digits, counted from the right.
pub open spec fn grouped_decimal(n: nat) -> Seq<char>
    decreases n,
{
    if n < 1000 {
        decimal(n)
    } else {
        grouped_decimal(n / 1000) + seq![','] + three_digits(n % 1000)
    }
}

/// What [`comma_readable_number`] prints for `n`.
pub open spec fn comma_readable(n: int) -> Seq<char> {
    if n < 0 {
        seq!['-'] + grouped_decimal((-n) as nat)
    } else {
        grouped_decimal(n as nat)
    }
}

/// Appends one character to a string.
///
/// Trusted: the body is a single call of `String::push`, and the contract
/// restates what the standard library documents for it, namely that the
/// character is added at the end and nothing else changes.
#[verifier::external_body]
pub(crate) fn push_char(s: &mut String, c: char)
    ensures
        final(s)@ == old(s)@.push(c),
{
    s.push(c);
}

/// The character of one decimal digit.
pub(crate) fn digit(d: u8) -> (c: char)
    requires
        d <= 9,
    ensures
        c == digit_char(d as int),
{
    if d == 0 {
        '0'
    } else if d == 1 {
        '1'
    } else if d == 2 {
        '2'
    } else if d == 3 {
        '3'
    } else if d == 4 {
        '4'
    } else if d == 5 {
        '5'
    } else if d == 6 {
        '6'
    } else if d == 7 {
        '7'
    } else if d == 8 {
        '8'
    } else {
        '9'
    }
}

/// Appends the decimal numeral of `n` to `out`.
pub fn push_decimal(out: &mut String, n: u64)
    ensures
        final(out)@ == old(out)@ + decimal(n as nat),
    decreases n,
{
    if n >= 10 {
        push_decimal(out, n / 10);
    }
    push_char(out, digit((n % 10) as u8));
}

/// Appends the decimal numeral of `n`, grouped in threes by commas, to `out`.
pub fn push_grouped_decimal(out: &mut String, n: u64)
    ensures
        final(out)@ == old(out)@ + grouped_decimal(n as nat),
    decreases n,
{
    if n < 1000 {
        push_decimal(out, n);
    } else {
        push_grouped_decimal(out, n / 1000);
        let rest: u64 = n % 1000;
        push_char(out, ',');
        push_char(out, digit((rest / 100) as u8));
        push_char(out, digit(((rest / 10) % 10) as u8));
        push_char(out, digit((rest % 10) as u8));
    }
}

/// The size of an `i64` without its sign.
pub(crate) fn magnitude(n: i64) -> (m: u64)
    ensures
        m == if n < 0 { -(n as int) } else { n as int },
{
    if n >= 0 {
        n as u64
    } else if n == i64::MIN {
        9_223_372_036_854_775_808u64
    } else {
        (-n) as u64
    }
}

/// Writes a number with a comma between each group of three digits, so that
/// one million reads `1,000,000`. Negative numbers keep their minus sign.
pub fn comma_readable_number(number: i64) -> (text: String)
    ensures
        text@ == comma_readable(number as int),
{
    let mut text = String::new();
    if number < 0 {
        push_char(&mut text, '-');
    }
    push_grouped_decimal(&mut text, magnitude(number));
    text
}

/// The decimal numeral of a signed number as a string.
pub fn decimal_string(number: i64) -> (text: String)
    ensures
        text@ == signed_decimal(number as int),
{
    let mut text = String::new();
    if number < 0 {
        push_char(&mut text, '-');
    }
    push_decimal(&mut text, magnitude(number));
    text
}

/// The part of `input` in front of the first `delimiter`, or all of `input`
/// where the delimiter does not occur.
pub fn get_first_part_of_string(input: &String, delimiter: char) -> (part: String)
    ensures
        part@.is_prefix_of(input@),
        !part@.contains(delimiter),
        part@.len() < input@.len() ==> input@[part@.len() as int] == delimiter,
{
    let mut part = String::new();
    for c in it: input.as_str().chars()
        invariant
            it.seq() == input@,
            part@ == input@.take(it.index()),
            !part@.contains(delimiter),
    {
        if c == delimiter {
            return part;
        }
        push_char(&mut part, c);
    }
    part
}

/// How a player level is shown: its decimal numeral, or a question mark for
/// a level that is hidden (negative).
pub open spec fn shown_level(level: int) -> Seq<char> {
    if level < 0 {
        "?"@
    } else {
        decimal(level as nat)
    }
}

/// Writes a player level, with `?` in place of a hidden one.
pub fn normalize_level(level: i32) -> (text: String)
    ensures
        text@ == shown_level(level as int),
{
    if level < 0 {
        String::from_str("?")
    } else {
        decimal_string(level as i64)
    }
}

} // verus!
