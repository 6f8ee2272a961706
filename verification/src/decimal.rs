//! Decimal rendering of integers, as it appears in file names and messages.

use vstd::prelude::*;

verus! {

/// The character that writes the digit `d`.
pub open spec fn digit_char(d: int) -> char
    recommends
        0 <= d <= 9,
{
    (('0' as u8) + d) as char
}

/// Whether `c` is one of the ten decimal digits.
pub open spec fn is_digit(c: char) -> bool {
    '0' <= c <= '9'
}

/// The decimal digits of a natural number, most significant first, without
/// leading zeros.
pub open spec fn decimal_nat(n: nat) -> Seq<char>
    decreases n,
{
    if n < 10 {
        seq![digit_char(n as int)]
    } else {
        decimal_nat(n / 10).push(digit_char((n % 10) as int))
    }
}

/// The decimal form of an integer: a minus sign for a negative number, then
/// the digits of its magnitude.
pub open spec fn decimal(n: int) -> Seq<char> {
    if n < 0 {
        seq!['-'] + decimal_nat((-n) as nat)
    } else {
        decimal_nat(n as nat)
    }
}

/// The number that a sequence of digits writes.
pub open spec fn decimal_value(digits: Seq<char>) -> nat
    decreases digits.len(),
{
    if digits.len() == 0 {
        0
    } else {
        (decimal_value(digits.drop_last()) * 10 + (digits.last() as u8 - '0' as u8)) as nat
    }
}

/// A decimal rendering is never empty and holds digits only.
pub proof fn lemma_decimal_nat_digits(n: nat)
    ensures
        decimal_nat(n).len() >= 1,
        forall|i: int| 0 <= i < decimal_nat(n).len() ==> is_digit(#[trigger] decimal_nat(n)[i]),
    decreases n,
{
    if n >= 10 {
        lemma_decimal_nat_digits(n / 10);
    }
}

/// Reading back the digits of a number gives the number.
pub proof fn lemma_decimal_nat_value(n: nat)
    ensures
        decimal_value(decimal_nat(n)) == n,
    decreases n,
{
    if n < 10 {
        assert(decimal_nat(n).drop_last() =~= Seq::<char>::empty());
        assert(decimal_value(decimal_nat(n).drop_last()) == 0);
    } else {
        lemma_decimal_nat_value(n / 10);
        assert(decimal_nat(n).drop_last() =~= decimal_nat(n / 10));
    }
}

/// Every character of a decimal rendering is a digit or the minus sign.
pub proof fn lemma_decimal_chars(n: int)
    ensures
        decimal(n).len() >= 1,
        forall|i: int|
            0 <= i < decimal(n).len() ==> is_digit(#[trigger] decimal(n)[i]) || decimal(n)[i]
                == '-',
{
    if n < 0 {
        lemma_decimal_nat_digits((-n) as nat);
    } else {
        lemma_decimal_nat_digits(n as nat);
    }
}

/// Two integers with the same decimal rendering are the same integer.
pub proof fn lemma_decimal_injective(a: int, b: int)
    requires
        decimal(a) == decimal(b),
    ensures
        a == b,
{
    let ma = (if a < 0 { -a } else { a }) as nat;
    let mb = (if b < 0 { -b } else { b }) as nat;
    lemma_decimal_nat_digits(ma);
    lemma_decimal_nat_digits(mb);
    lemma_decimal_nat_value(ma);
    lemma_decimal_nat_value(mb);
    if a < 0 && b < 0 {
        assert(decimal(a).subrange(1, decimal(a).len() as int) =~= decimal_nat(ma));
        assert(decimal(b).subrange(1, decimal(b).len() as int) =~= decimal_nat(mb));
    } else if a < 0 {
        assert(decimal(a)[0] == '-');
        assert(is_digit(decimal_nat(mb)[0]));
    } else if b < 0 {
        assert(decimal(b)[0] == '-');
        assert(is_digit(decimal_nat(ma)[0]));
    }
}

fn digit_of(d: u8) -> (c: char)
    requires
        d <= 9,
    ensures
        c == digit_char(d as int),
{
    (48u8 + d) as char
}

/// Appends the decimal digits of `n` to `out`.
pub fn push_decimal_nat(out: &mut String, n: u64)
    ensures
        final(out)@ == old(out)@ + decimal_nat(n as nat),
    decreases n,
{
    if n >= 10 {
        push_decimal_nat(out, n / 10);
    }
    out.push(digit_of((n % 10) as u8));
}

/// Appends the decimal form of `n` to `out`.
pub fn push_decimal(out: &mut String, n: i64)
    ensures
        final(out)@ == old(out)@ + decimal(n as int),
{
    if n < 0 {
        out.push('-');
        let magnitude: u64 = if n == i64::MIN {
            9223372036854775808u64
        } else {
            (-n) as u64
        };
        push_decimal_nat(out, magnitude);
    } else {
        push_decimal_nat(out, n as u64);
    }
}

/// The decimal form of `n` as a string of its own.
pub fn i64_to_decimal(n: i64) -> (text: String)
    ensures
        text@ == decimal(n as int),
{
    let mut text = String::new();
    push_decimal(&mut text, n);
    text
}

} // verus!
