//! Decimal notation of integers.

use vstd::prelude::*;

verus! {

/// The character of the decimal digit `d`, for `0 <= d <= 9`.
pub open spec fn digit(d: int) -> char {
    ('0' as int + d) as char
}

/// The decimal notation of a natural number: no sign, no leading zeros,
/// `"0"` for zero.
pub open spec fn decimal_nat(n: nat) -> Seq<char>
    decreases n,
{
    if n < 10 {
        seq![digit(n as int)]
    } else {
        decimal_nat(n / 10).push(digit(n as int % 10))
    }
}

/// The decimal notation of an integer: a minus sign for a negative number,
/// then the notation of its magnitude.
pub open spec fn decimal(n: int) -> Seq<char> {
    if n < 0 {
        seq!['-'] + decimal_nat((-n) as nat)
    } else {
        decimal_nat(n as nat)
    }
}

/// The character of one decimal digit.
pub fn digit_char(d: u8) -> (c: char)
    requires
        d < 10,
    ensures
        c == digit(d as int),
{
    ('0' as u8 + d) as char
}

/// Appends the decimal notation of `n` to `out`.
pub fn push_decimal(out: &mut String, n: u32)
    ensures
        final(out)@ == old(out)@ + decimal_nat(n as nat),
    decreases n,
{
    if n >= 10 {
        push_decimal(out, n / 10);
    }
    out.push(digit_char((n % 10) as u8));
    assert(final(out)@ =~= old(out)@ + decimal_nat(n as nat));
}

/// The decimal notation of `n`.
pub fn to_decimal(n: i32) -> (s: String)
    ensures
        s@ == decimal(n as int),
{
    let mut s = String::new();
    if n < 0 {
        s.push('-');
        push_decimal(&mut s, (-(n as i64)) as u32);
    } else {
        push_decimal(&mut s, n as u32);
    }
    assert(s@ =~= decimal(n as int));
    s
}

} // verus!
