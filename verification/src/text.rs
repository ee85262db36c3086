//! Building text: characters appended to strings, numbers written in decimal
//! and in hexadecimal.
use vstd::prelude::*;

verus! {

/// The character of a digit below sixteen, with lower-case letters above
/// nine.
pub open spec fn digit(d: int) -> char {
    if d < 10 {
        (0x30 + d) as char
    } else {
        (0x61 + d - 10) as char
    }
}

/// A number written in decimal, without leading zeros.
pub open spec fn decimal(n: nat) -> Seq<char>
    decreases n,
{
    if n < 10 {
        seq![digit(n as int)]
    } else {
        decimal(n / 10).push(digit((n % 10) as int))
    }
}

/// A number written in hexadecimal with lower-case letters, without leading
/// zeros.
pub open spec fn hex_digits(n: nat) -> Seq<char>
    decreases n,
{
    if n < 16 {
        seq![digit(n as int)]
    } else {
        hex_digits(n / 16).push(digit((n % 16) as int))
    }
}

/// A number written in hexadecimal after `0x`.
pub open spec fn hexadecimal(n: nat) -> Seq<char> {
    "0x"@ + hex_digits(n)
}

/// The upper-case character of a digit below sixteen.
pub open spec fn upper_digit(d: int) -> char {
    if d < 10 {
        (0x30 + d) as char
    } else {
        (0x41 + d - 10) as char
    }
}

/// A sixteen-bit value written as four upper-case hexadecimal digits.
pub open spec fn upper_hex4(n: u16) -> Seq<char> {
    seq![
        upper_digit(n as int / 4096),
        upper_digit((n as int / 256) % 16),
        upper_digit((n as int / 16) % 16),
        upper_digit(n as int % 16),
    ]
}

/// A character repeated.
pub open spec fn repeated(c: char, count: int) -> Seq<char> {
    Seq::new(count as nat, |i: int| c)
}

/// The word for a truth value.
pub open spec fn truth(value: bool) -> Seq<char> {
    if value {
        "true"@
    } else {
        "false"@
    }
}

/// Appends one character to a string.
///
/// Wraps `String::push`, which std documents as appending the given `char` to
/// the end of the string.
#[verifier::external_body]
pub(crate) fn push_char(text: &mut String, c: char)
    ensures
        final(text)@ == old(text)@.push(c),
{
    text.push(c)
}

/// The character of a digit below sixteen.
pub fn digit_char(d: u8) -> (c: char)
    requires
        d < 16,
    ensures
        c == digit(d as int),
{
    if d < 10 {
        (0x30 + d) as char
    } else {
        (0x61 + d - 10) as char
    }
}

/// Appends a number written in decimal.
pub fn append_decimal(text: &mut String, n: u64)
    ensures
        final(text)@ == old(text)@ + decimal(n as nat),
    decreases n,
{
    if n >= 10 {
        append_decimal(text, n / 10);
    }
    push_char(text, digit_char((n % 10) as u8));
    assert(text@ =~= old(text)@ + decimal(n as nat));
}

/// Appends a number written in hexadecimal, without a prefix.
pub fn append_hex_digits(text: &mut String, n: u64)
    ensures
        final(text)@ == old(text)@ + hex_digits(n as nat),
    decreases n,
{
    if n >= 16 {
        append_hex_digits(text, n / 16);
    }
    push_char(text, digit_char((n % 16) as u8));
    assert(text@ =~= old(text)@ + hex_digits(n as nat));
}

/// Appends a number written in hexadecimal after `0x`.
pub fn append_hexadecimal(text: &mut String, n: u64)
    ensures
        final(text)@ == old(text)@ + hexadecimal(n as nat),
{
    text.append("0x");
    append_hex_digits(text, n);
    assert(text@ =~= old(text)@ + hexadecimal(n as nat));
}

/// The upper-case character of a digit below sixteen.
pub fn upper_digit_char(d: u8) -> (c: char)
    requires
        d < 16,
    ensures
        c == upper_digit(d as int),
{
    if d < 10 {
        (0x30 + d) as char
    } else {
        (0x41 + d - 10) as char
    }
}

/// Appends a sixteen-bit value written as four upper-case hexadecimal digits.
pub fn append_upper_hex4(text: &mut String, n: u16)
    ensures
        final(text)@ == old(text)@ + upper_hex4(n),
{
    push_char(text, upper_digit_char((n / 4096) as u8));
    push_char(text, upper_digit_char(((n / 256) % 16) as u8));
    push_char(text, upper_digit_char(((n / 16) % 16) as u8));
    push_char(text, upper_digit_char((n % 16) as u8));
    assert(text@ =~= old(text)@ + upper_hex4(n));
}

/// Appends a character `count` times.
pub fn append_repeated(text: &mut String, c: char, count: usize)
    ensures
        final(text)@ == old(text)@ + repeated(c, count as int),
{
    let mut i: usize = 0;
    while i < count
        invariant
            i <= count,
            text@ == old(text)@ + repeated(c, i as int),
        decreases count - i,
    {
        push_char(text, c);
        i += 1;
        assert(text@ =~= old(text)@ + repeated(c, i as int));
    }
}

/// Appends the word for a truth value.
pub fn append_truth(text: &mut String, value: bool)
    ensures
        final(text)@ == old(text)@ + truth(value),
{
    if value {
        text.append("true");
    } else {
        text.append("false");
    }
}

} // verus!
