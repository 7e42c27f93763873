//! Integers as text: decimal with a sign, and binary.

use vstd::prelude::*;
use vstd::string::*;

verus! {

/// The character for a digit's value: `'0'` for zero up to `'9'` for nine.
pub open spec fn digit(value: nat) -> char {
    (value + 48) as char
}

/// The digits of `value` in the given base, the most significant first and
/// without leading zeros; zero is the single digit `0`.
pub open spec fn digits(value: nat, base: nat) -> Seq<char>
    decreases value,
    via digits_terminates
{
    if base < 2 || value < base {
        seq![digit(value)]
    } else {
        digits(value / base, base).push(digit(value % base))
    }
}

#[via_fn]
proof fn digits_terminates(value: nat, base: nat) {
    if base >= 2 && value >= base {
        lemma_quotient(value, base);
    }
}

/// Dividing by a base of two or more makes a number smaller, and leaves
/// something of a number that is not below the base.
pub proof fn lemma_quotient(value: nat, base: nat)
    requires
        base >= 2,
        value >= base,
    ensures
        0 < value / base < value,
        value % base < base,
{
    assert(0 < value / base < value && value % base < base) by (nonlinear_arith)
        requires
            base >= 2,
            value >= base,
    ;
}

/// A whole number in decimal: a minus sign in front of a negative one, no
/// sign otherwise.
pub open spec fn decimal(value: int) -> Seq<char> {
    if value < 0 {
        seq!['-'] + digits((-value) as nat, 10)
    } else {
        digits(value as nat, 10)
    }
}

/// A 32-bit integer in binary. A negative one is written as the 32 bits of
/// its two's complement.
pub open spec fn binary(value: int) -> Seq<char> {
    if value < 0 {
        digits((value + 0x1_0000_0000) as nat, 2)
    } else {
        digits(value as nat, 2)
    }
}

fn digit_char(value: u8) -> (c: char)
    requires
        value < 10,
    ensures
        c == digit(value as nat),
{
    (value + 48) as char
}

fn push_digits(out: &mut String, value: u64, base: u64)
    requires
        2 <= base <= 10,
    ensures
        final(out)@ == old(out)@ + digits(value as nat, base as nat),
    decreases value,
{
    let last: u8 = (value % base) as u8;
    if value >= base {
        proof {
            lemma_quotient(value as nat, base as nat);
        }
        push_digits(out, value / base, base);
        let ghost front = digits((value / base) as nat, base as nat);
        out.push(digit_char(last));
        assert(digits(value as nat, base as nat) == front.push(digit(last as nat)));
        assert(out@ =~= old(out)@ + digits(value as nat, base as nat));
    } else {
        assert(value % base == value) by (nonlinear_arith)
            requires
                value < base,
        ;
        out.push(digit_char(last));
        assert(digits(value as nat, base as nat) == seq![digit(last as nat)]);
        assert(out@ =~= old(out)@ + digits(value as nat, base as nat));
    }
}

/// Adds the decimal text of `value` to the end of `out`.
pub fn push_decimal(out: &mut String, value: i64)
    ensures
        final(out)@ == old(out)@ + decimal(value as int),
{
    let wide: i128 = value as i128;
    if wide < 0 {
        out.push('-');
        push_digits(out, (-wide) as u64, 10);
    } else {
        push_digits(out, wide as u64, 10);
    }
    assert(out@ =~= old(out)@ + decimal(value as int));
}

/// Adds the decimal text of an unsigned `value` to the end of `out`.
pub fn push_unsigned(out: &mut String, value: u64)
    ensures
        final(out)@ == old(out)@ + decimal(value as int),
{
    push_digits(out, value, 10);
}

/// The decimal text of a signed integer.
pub fn decimal_text(value: i64) -> (text: String)
    ensures
        text@ == decimal(value as int),
{
    let mut text = String::new();
    push_decimal(&mut text, value);
    assert(text@ =~= decimal(value as int));
    text
}

/// The decimal text of an unsigned integer.
pub fn unsigned_text(value: u64) -> (text: String)
    ensures
        text@ == decimal(value as int),
{
    let mut text = String::new();
    push_unsigned(&mut text, value);
    assert(text@ =~= decimal(value as int));
    text
}

/// The binary text of a 32-bit integer.
pub fn binary_text(value: i32) -> (text: String)
    ensures
        text@ == binary(value as int),
{
    let wide: i64 = value as i64;
    let bits: u64 = if wide < 0 {
        (wide + 0x1_0000_0000) as u64
    } else {
        wide as u64
    };
    let mut text = String::new();
    push_digits(&mut text, bits, 2);
    assert(text@ =~= binary(value as int));
    text
}

} // verus!
