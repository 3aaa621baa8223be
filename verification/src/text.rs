//! Decimal numerals and string comparison for messages and options.

use vstd::prelude::*;

use crate::numeral::{number, values};

verus! {

/// The character of the decimal digit `d`.
pub open spec fn digit_char(d: nat) -> char {
    (48 + d) as char
}

/// The decimal numeral of `n`, without leading zeros.
pub open spec fn decimal(n: nat) -> Seq<char>
    decreases n,
{
    if n < 10 {
        seq![digit_char(n)]
    } else {
        decimal(n / 10).push(digit_char(n % 10))
    }
}

/// The decimal numeral of `n`, with a minus sign in front of a negative number.
pub open spec fn signed_decimal(n: int) -> Seq<char> {
    if n < 0 {
        "-"@ + decimal((-n) as nat)
    } else {
        decimal(n as nat)
    }
}

fn digit_str(d: u64) -> (s: &'static str)
    requires
        d < 10,
    ensures
        s@ == seq![digit_char(d as nat)],
{
    proof {
        reveal_strlit("0");
        reveal_strlit("1");
        reveal_strlit("2");
        reveal_strlit("3");
        reveal_strlit("4");
        reveal_strlit("5");
        reveal_strlit("6");
        reveal_strlit("7");
        reveal_strlit("8");
        reveal_strlit("9");
    }
    if d == 0 {
        "0"
    } else if d == 1 {
        "1"
    } else if d == 2 {
        "2"
    } else if d == 3 {
        "3"
    } else if d == 4 {
        "4"
    } else if d == 5 {
        "5"
    } else if d == 6 {
        "6"
    } else if d == 7 {
        "7"
    } else if d == 8 {
        "8"
    } else {
        "9"
    }
}

/// `String::push` appends one character.
pub assume_specification[ String::push ](text: &mut String, c: char)
    ensures
        final(text)@ == old(text)@.push(c),
;

/// A text as a Rust string literal, in quotes and with escapes.
pub uninterp spec fn quoted_text(s: Seq<char>) -> Seq<char>;

/// `format!` with `{:?}` writes a string as a literal. What is escaped, and how, is not
/// said here: the literal is a function of the text.
#[verifier::external_body]
pub(crate) fn quoted(s: &str) -> (text: String)
    ensures
        text@ == quoted_text(s@),
{
    format!("{s:?}")
}

/// Append the ASCII character `b`.
pub fn push_char(text: &mut String, b: u8)
    requires
        b < 128,
    ensures
        final(text)@ == old(text)@.push(b as char),
{
    text.push(b as char);
}

/// Append the decimal numeral of `n`.
pub fn push_decimal(text: &mut String, n: u64)
    ensures
        final(text)@ == old(text)@ + decimal(n as nat),
    decreases n,
{
    if n >= 10 {
        push_decimal(text, n / 10);
    }
    text.append(digit_str(n % 10));
}

/// Append the decimal numeral of `n`, with its sign.
pub fn push_signed(text: &mut String, n: i32)
    ensures
        final(text)@ == old(text)@ + signed_decimal(n as int),
{
    if n < 0 {
        text.append("-");
        push_decimal(text, (-(n as i64)) as u64);
    } else {
        push_decimal(text, n as u64);
    }
}

/// The character of the hexadecimal digit `d`.
pub open spec fn hex_char(d: int) -> char {
    if d < 10 {
        (48 + d) as char
    } else {
        (87 + d) as char
    }
}

/// The two hexadecimal digits of a byte.
pub open spec fn hex2(b: u8) -> Seq<char> {
    seq![hex_char(b as int / 16), hex_char(b as int % 16)]
}

fn push_hex_digit(text: &mut String, d: u8)
    requires
        d < 16,
    ensures
        final(text)@ == old(text)@.push(hex_char(d as int)),
{
    if d < 10 {
        push_char(text, 48 + d);
    } else {
        push_char(text, 87 + d);
    }
}

/// Append the two hexadecimal digits of a byte.
pub fn push_hex2(text: &mut String, b: u8)
    ensures
        final(text)@ == old(text)@ + hex2(b),
{
    push_hex_digit(text, b / 16);
    push_hex_digit(text, b % 16);
    assert(text@ =~= old(text)@ + hex2(b));
}

/// Whether two strings hold the same characters.
pub fn same_text(a: &str, b: &str) -> (same: bool)
    ensures
        same == (a@ == b@),
{
    a.to_owned() == b.to_owned()
}

/// A message of two parts.
pub fn join2(a: &str, b: &str) -> (text: String)
    ensures
        text@ == a@ + b@,
{
    a.to_owned().concat(b)
}

/// The decimal numeral of `n`.
pub fn numeral(n: u64) -> (text: String)
    ensures
        text@ == decimal(n as nat),
{
    let mut text = String::new();
    push_decimal(&mut text, n);
    text
}

/// A message that ends in a number.
pub fn ending_in(before: &str, n: u64) -> (text: String)
    ensures
        text@ == before@ + decimal(n as nat),
{
    let mut text = before.to_owned();
    push_decimal(&mut text, n);
    text
}

/// A message of three parts.
pub fn join3(a: &str, b: &str, c: &str) -> (text: String)
    ensures
        text@ == a@ + b@ + c@,
{
    a.to_owned().concat(b).concat(c)
}

/// A message of five parts.
pub fn join5(a: &str, b: &str, c: &str, d: &str, e: &str) -> (text: String)
    ensures
        text@ == a@ + b@ + c@ + d@ + e@,
{
    a.to_owned().concat(b).concat(c).concat(d).concat(e)
}

/// A message with a number in its middle.
pub fn numbered(before: &str, n: u64, after: &str) -> (text: String)
    ensures
        text@ == before@ + decimal(n as nat) + after@,
{
    let mut text = before.to_owned();
    push_decimal(&mut text, n);
    text.concat(after)
}

/// A message with two numbers in its middle.
pub fn numbered2(before: &str, n: u64, between: &str, m: u64, after: &str) -> (text: String)
    ensures
        text@ == before@ + decimal(n as nat) + between@ + decimal(m as nat) + after@,
{
    let mut text = before.to_owned();
    push_decimal(&mut text, n);
    text.append(between);
    push_decimal(&mut text, m);
    text.concat(after)
}

/// A decimal numeral is made of decimal digits, begins with 0 only for 0 itself, and the
/// number that its digits stand for is the one that it was made from.
pub proof fn decimals_read_back(n: nat)
    ensures
        decimal(n).len() > 0,
        forall|i: int| 0 <= i < decimal(n).len() ==> '0' <= #[trigger] decimal(n)[i] <= '9',
        n > 0 ==> decimal(n)[0] != '0',
        n == 0 ==> decimal(n) == seq!['0'],
        number(values(decimal(n))) == n,
    decreases n,
{
    let s = decimal(n);
    let d = values(s);
    if n >= 10 {
        decimals_read_back(n / 10);
        assert(d.drop_last() =~= values(decimal(n / 10)));
        assert(d.last() as nat == n % 10);
    } else {
        assert(d.drop_last() =~= Seq::<u8>::empty());
        assert(number(d.drop_last()) == 0);
        assert(d.last() as nat == n);
    }
}

/// A negative number has a minus sign in front of the numeral of its size; no other
/// number has a sign.
pub proof fn signs_come_first(n: int)
    ensures
        n >= 0 ==> signed_decimal(n) == decimal(n as nat),
        n < 0 ==> signed_decimal(n) == seq!['-'] + decimal((-n) as nat),
{
    reveal_strlit("-");
    assert("-"@ =~= seq!['-']);
}

/// A byte has two hexadecimal digits, the higher one first; the digits from ten on are
/// the small letters from a on.
pub proof fn bytes_have_two_hex_digits(b: u8)
    ensures
        hex2(b).len() == 2,
        ({
            let high = hex2(b)[0] as int;
            let low = hex2(b)[1] as int;
            let first = if high >= 97 {
                high - 87
            } else {
                high - 48
            };
            let second = if low >= 97 {
                low - 87
            } else {
                low - 48
            };
            &&& 48 <= high < 58 || 97 <= high < 103
            &&& 48 <= low < 58 || 97 <= low < 103
            &&& 16 * first + second == b
        }),
{
    let v = b as int;
    assert(v == v / 16 * 16 + v % 16);
}

} // verus!
