//! Text as sequences of characters: conversion between strings and
//! character vectors, and decimal numerals.

use vstd::prelude::*;

verus! {

/// `String::push` appends one character to the string.
pub assume_specification[ String::push ](s: &mut String, ch: char)
    ensures
        final(s)@ == old(s)@.push(ch),
;

/// The characters of a string, in a vector.
pub fn chars_of(s: &str) -> (r: Vec<char>)
    ensures
        r@ == s@,
{
    let n = s.unicode_len();
    let mut out: Vec<char> = Vec::new();
    let mut i: usize = 0;
    while i < n
        invariant
            n == s@.len(),
            i <= n,
            out@ == s@.subrange(0, i as int),
        decreases n - i,
    {
        out.push(s.get_char(i));
        i += 1;
        assert(out@ =~= s@.subrange(0, i as int));
    }
    assert(s@.subrange(0, n as int) =~= s@);
    out
}

/// The string made of the characters of a slice.
pub fn string_of(chars: &[char]) -> (r: String)
    ensures
        r@ == chars@,
{
    let mut out = String::new();
    let mut i: usize = 0;
    while i < chars.len()
        invariant
            i <= chars.len(),
            out@ == chars@.subrange(0, i as int),
        decreases chars.len() - i,
    {
        out.push(chars[i]);
        i += 1;
        assert(out@ =~= chars@.subrange(0, i as int));
    }
    assert(chars@.subrange(0, chars.len() as int) =~= chars@);
    out
}

/// The character that writes the digit `d`.
pub open spec fn digit_char(d: int) -> char {
    ('0' as int + d) as char
}

/// The digits of `n` in base ten, most significant first, without leading
/// zeros; `0` is written with one digit.
pub open spec fn decimal_digits(n: nat) -> Seq<char>
    decreases n,
{
    if n < 10 {
        seq![digit_char(n as int)]
    } else {
        decimal_digits(n / 10).push(digit_char((n % 10) as int))
    }
}

/// The decimal numeral of an integer, with `-` before a negative one.
pub open spec fn decimal_text(n: int) -> Seq<char> {
    if n < 0 {
        seq!['-'] + decimal_digits((-n) as nat)
    } else {
        decimal_digits(n as nat)
    }
}

/// The character of one digit.
pub fn digit_to_char(d: u8) -> (r: char)
    requires
        d < 10,
    ensures
        r == digit_char(d as int),
{
    (48u8 + d) as char
}

fn push_decimal_digits(out: &mut String, n: u64)
    ensures
        final(out)@ == old(out)@ + decimal_digits(n as nat),
    decreases n,
{
    if n >= 10 {
        push_decimal_digits(out, n / 10);
    }
    out.push(digit_to_char((n % 10) as u8));
    assert(final(out)@ =~= old(out)@ + decimal_digits(n as nat));
}

/// Writes an integer as a decimal numeral.
pub fn decimal_string(n: i64) -> (r: String)
    ensures
        r@ == decimal_text(n as int),
{
    let mut out = String::new();
    if n < 0 {
        out.push('-');
        let magnitude: u64 = if n == i64::MIN {
            9223372036854775808u64
        } else {
            (-n) as u64
        };
        push_decimal_digits(&mut out, magnitude);
    } else {
        push_decimal_digits(&mut out, n as u64);
    }
    assert(out@ =~= decimal_text(n as int));
    out
}

/// One of the ten digits `0` to `9`.
pub open spec fn is_decimal_digit(c: char) -> bool {
    '0' <= c <= '9'
}

/// The number that a run of digits writes in base ten; 0 for no digits.
pub open spec fn digits_value(digits: Seq<char>) -> int
    decreases digits.len(),
{
    if digits.len() == 0 {
        0
    } else {
        10 * digits_value(digits.drop_last()) + (digits.last() as int - '0' as int)
    }
}

/// Whether every character of the text is a digit.
pub open spec fn all_digits(digits: Seq<char>) -> bool {
    forall|i: int| 0 <= i < digits.len() ==> is_decimal_digit(#[trigger] digits[i])
}

/// The integer that a text writes: an optional `+` or `-`, then one digit
/// or more, and nothing else. `None` for any other text.
pub open spec fn integer_value(text: Seq<char>) -> Option<int> {
    let signed = text.len() > 0 && (text[0] == '-' || text[0] == '+');
    let digits = if signed {
        text.subrange(1, text.len() as int)
    } else {
        text
    };
    if digits.len() == 0 || !all_digits(digits) {
        None
    } else if signed && text[0] == '-' {
        Some(-digits_value(digits))
    } else {
        Some(digits_value(digits))
    }
}

/// The `i32` that a text writes, `None` where it writes no integer or one
/// that an `i32` cannot hold.
pub open spec fn i32_value(text: Seq<char>) -> Option<i32> {
    match integer_value(text) {
        Some(value) => if i32::MIN <= value <= i32::MAX {
            Some(value as i32)
        } else {
            None
        },
        None => None,
    }
}

/// Digits write no negative number.
pub proof fn lemma_digits_value_nonnegative(digits: Seq<char>)
    requires
        all_digits(digits),
    ensures
        0 <= digits_value(digits),
    decreases digits.len(),
{
    if digits.len() > 0 {
        lemma_digits_value_nonnegative(digits.drop_last());
    }
}

/// Reads a text as an `i32`.
pub fn parse_i32(text: &str) -> (r: Option<i32>)
    ensures
        r == i32_value(text@),
{
    let chars = chars_of(text);
    let signed = chars.len() > 0 && (chars[0] == '-' || chars[0] == '+');
    let start: usize = if signed {
        1
    } else {
        0
    };
    if chars.len() == start {
        return None;
    }
    let ghost digits = chars@.subrange(start as int, chars@.len() as int);
    assert(!signed ==> digits =~= text@);
    let mut value: i64 = 0;
    let mut too_large = false;
    let mut i: usize = start;
    while i < chars.len()
        invariant
            start <= i <= chars@.len(),
            chars@ == text@,
            signed == (chars@.len() > 0 && (chars@[0] == '-' || chars@[0] == '+')),
            start == if signed { 1usize } else { 0usize },
            digits == chars@.subrange(start as int, chars@.len() as int),
            !signed ==> digits == text@,
            all_digits(digits.subrange(0, i - start)),
            !too_large ==> value == digits_value(digits.subrange(0, i - start)),
            too_large ==> digits_value(digits.subrange(0, i - start)) > 0x8000_0000,
            0 <= value <= 0x8000_0000,
        decreases chars.len() - i,
    {
        let c = chars[i];
        if !('0' <= c && c <= '9') {
            assert(!is_decimal_digit(digits[i - start]));
            assert(!all_digits(digits));
            return None;
        }
        let ghost before = digits.subrange(0, i - start);
        let ghost after = digits.subrange(0, i + 1 - start);
        assert(after.drop_last() =~= before);
        assert(after.last() == c);
        proof {
            lemma_digits_value_nonnegative(before);
        }
        if !too_large {
            let next = value * 10 + (c as u32 - 48) as i64;
            if next > 0x8000_0000 {
                too_large = true;
            } else {
                value = next;
            }
        }
        i += 1;
    }
    assert(digits.subrange(0, digits.len() as int) =~= digits);
    assert(all_digits(digits));
    if too_large {
        return None;
    }
    if signed && chars[0] == '-' {
        Some((-value) as i32)
    } else if value > 0x7FFF_FFFF {
        None
    } else {
        Some(value as i32)
    }
}

/// Whether two texts hold the same characters.
pub fn same_text(a: &str, b: &str) -> (r: bool)
    ensures
        r == (a@ == b@),
{
    let left = chars_of(a);
    let right = chars_of(b);
    if left.len() != right.len() {
        return false;
    }
    let mut i: usize = 0;
    while i < left.len()
        invariant
            i <= left@.len(),
            left@.len() == right@.len(),
            left@ == a@,
            right@ == b@,
            forall|k: int| 0 <= k < i ==> left@[k] == right@[k],
        decreases left.len() - i,
    {
        if left[i] != right[i] {
            return false;
        }
        i += 1;
    }
    assert(left@ =~= right@);
    true
}

} // verus!
