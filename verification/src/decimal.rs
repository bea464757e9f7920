//! Integers written in decimal, as they appear in file names and arguments.

use vstd::prelude::*;
use crate::text::text_of;

verus! {

/// The character of the decimal digit `digit`.
pub open spec fn digit_char(digit: int) -> char {
    if digit == 0 {
        '0'
    } else if digit == 1 {
        '1'
    } else if digit == 2 {
        '2'
    } else if digit == 3 {
        '3'
    } else if digit == 4 {
        '4'
    } else if digit == 5 {
        '5'
    } else if digit == 6 {
        '6'
    } else if digit == 7 {
        '7'
    } else if digit == 8 {
        '8'
    } else {
        '9'
    }
}

/// The decimal digits of `value`, most significant first, without leading
/// zeros; a single `0` for zero.
pub open spec fn decimal_digits(value: nat) -> Seq<char>
    decreases value,
{
    if value < 10 {
        seq![digit_char(value as int)]
    } else {
        decimal_digits(value / 10).push(digit_char((value % 10) as int))
    }
}

/// `value` written in decimal, with a minus sign before a negative number.
pub open spec fn decimal_text(value: int) -> Seq<char> {
    if value < 0 {
        seq!['-'] + decimal_digits((-value) as nat)
    } else {
        decimal_digits(value as nat)
    }
}

fn digit_of(digit: u128) -> (c: char)
    requires
        digit < 10,
    ensures
        c == digit_char(digit as int),
{
    if digit == 0 {
        '0'
    } else if digit == 1 {
        '1'
    } else if digit == 2 {
        '2'
    } else if digit == 3 {
        '3'
    } else if digit == 4 {
        '4'
    } else if digit == 5 {
        '5'
    } else if digit == 6 {
        '6'
    } else if digit == 7 {
        '7'
    } else if digit == 8 {
        '8'
    } else {
        '9'
    }
}

fn push_digits(out: &mut Vec<char>, value: u128)
    ensures
        final(out)@ == old(out)@ + decimal_digits(value as nat),
    decreases value,
{
    if value >= 10 {
        push_digits(out, value / 10);
    }
    out.push(digit_of(value % 10));
    assert(out@ =~= old(out)@ + decimal_digits(value as nat));
}

/// `value` written in decimal.
pub fn unsigned_to_decimal(value: u64) -> (text: String)
    ensures
        text@ == decimal_text(value as int),
{
    let mut out: Vec<char> = Vec::new();
    push_digits(&mut out, value as u128);
    assert(out@ =~= decimal_text(value as int));
    text_of(&out)
}

/// `value` written in decimal, with a minus sign before a negative number.
pub fn signed_to_decimal(value: i128) -> (text: String)
    ensures
        text@ == decimal_text(value as int),
{
    let mut out: Vec<char> = Vec::new();
    if value < 0 {
        out.push('-');
        let below: i128 = -(value + 1);
        let magnitude: u128 = below as u128 + 1;
        push_digits(&mut out, magnitude);
    } else {
        push_digits(&mut out, value as u128);
    }
    assert(out@ =~= decimal_text(value as int));
    text_of(&out)
}

/// `value` written in decimal, with a minus sign before a negative number.
pub fn i64_to_decimal(value: i64) -> (text: String)
    ensures
        text@ == decimal_text(value as int),
{
    signed_to_decimal(value as i128)
}

} // verus!
