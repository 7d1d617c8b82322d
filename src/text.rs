//! Building diagnostic text: decimal and hexadecimal numbers, appended to a `String`.

use vstd::prelude::*;

verus! {

/// The digit for `d` in bases up to sixteen, upper case past nine.
pub open spec fn digit_of(d: nat) -> char {
    if d == 0 { '0' }
    else if d == 1 { '1' }
    else if d == 2 { '2' }
    else if d == 3 { '3' }
    else if d == 4 { '4' }
    else if d == 5 { '5' }
    else if d == 6 { '6' }
    else if d == 7 { '7' }
    else if d == 8 { '8' }
    else if d == 9 { '9' }
    else if d == 10 { 'A' }
    else if d == 11 { 'B' }
    else if d == 12 { 'C' }
    else if d == 13 { 'D' }
    else if d == 14 { 'E' }
    else { 'F' }
}

/// `n` written in `base` (2 to 16) with no leading zeros; zero is "0".
pub open spec fn digits_of(n: nat, base: nat) -> Seq<char>
    decreases n
    via digits_of_decreases

{
    if base < 2 || n < base {
        seq![digit_of(n)]
    } else {
        digits_of(n / base, base).push(digit_of(n % base))
    }
}

#[via_fn]
proof fn digits_of_decreases(n: nat, base: nat) {
    if !(base < 2 || n < base) {
        assert(n / base < n) by (nonlinear_arith)
            requires
                base >= 2,
                n >= base,
        ;
    }
}

/// The decimal form of `n`, as `{}` prints an unsigned integer.
pub open spec fn decimal(n: nat) -> Seq<char> {
    digits_of(n, 10)
}

/// The upper-case hexadecimal form of `n`, as `{:X}` prints it.
pub open spec fn hex_upper(n: nat) -> Seq<char> {
    digits_of(n, 16)
}

/// Relies on `String::push`: appends the one character at the end.
#[verifier::external_body]
pub(crate) fn push_char(s: &mut String, c: char)
    ensures
        final(s)@ == old(s)@.push(c),
{
    s.push(c)
}

fn digit_char(d: u64) -> (c: char)
    requires
        d < 16,
    ensures
        c == digit_of(d as nat),
{
    if d == 0 { '0' }
    else if d == 1 { '1' }
    else if d == 2 { '2' }
    else if d == 3 { '3' }
    else if d == 4 { '4' }
    else if d == 5 { '5' }
    else if d == 6 { '6' }
    else if d == 7 { '7' }
    else if d == 8 { '8' }
    else if d == 9 { '9' }
    else if d == 10 { 'A' }
    else if d == 11 { 'B' }
    else if d == 12 { 'C' }
    else if d == 13 { 'D' }
    else if d == 14 { 'E' }
    else { 'F' }
}

/// Appends `n` written in `base` to `s`.
pub fn push_digits(s: &mut String, n: u64, base: u64)
    requires
        2 <= base <= 16,
    ensures
        final(s)@ == old(s)@ + digits_of(n as nat, base as nat),
    decreases n,
{
    let ghost start = s@;
    if n >= base {
        assert(n / base < n) by (nonlinear_arith)
            requires
                base >= 2,
                n >= base,
        ;
        push_digits(s, n / base, base);
    }
    let ghost mid = s@;
    push_char(s, digit_char(n % base));
    if n < base {
        assert(n % base == n) by (nonlinear_arith)
            requires
                n < base,
        ;
        assert(mid == start);
    } else {
        assert(mid == start + digits_of((n / base) as nat, base as nat));
    }
    assert(s@ =~= start + digits_of(n as nat, base as nat));
}

/// Appends the decimal form of `n` to `s`.
pub fn push_decimal(s: &mut String, n: u64)
    ensures
        final(s)@ == old(s)@ + decimal(n as nat),
{
    push_digits(s, n, 10);
}

/// Appends the upper-case hexadecimal form of `n` to `s`.
pub fn push_hex_upper(s: &mut String, n: u64)
    ensures
        final(s)@ == old(s)@ + hex_upper(n as nat),
{
    push_digits(s, n, 16);
}

} // verus!
