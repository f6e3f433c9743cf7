//! Decimal rendering of integers and fixed-point quantities.

use vstd::prelude::*;

verus! {

/// The text of a decimal digit.
pub open spec fn digit_text(d: int) -> Seq<char> {
    if d == 0 {
        "0"@
    } else if d == 1 {
        "1"@
    } else if d == 2 {
        "2"@
    } else if d == 3 {
        "3"@
    } else if d == 4 {
        "4"@
    } else if d == 5 {
        "5"@
    } else if d == 6 {
        "6"@
    } else if d == 7 {
        "7"@
    } else if d == 8 {
        "8"@
    } else {
        "9"@
    }
}

/// The decimal text of a natural number, without leading zeros.
pub open spec fn decimal_text(n: nat) -> Seq<char>
    decreases n,
{
    if n < 10 {
        digit_text(n as int)
    } else {
        decimal_text(n / 10) + digit_text((n % 10) as int)
    }
}

/// The sign that precedes a negative number.
pub open spec fn sign_text(v: int) -> Seq<char> {
    if v < 0 {
        "-"@
    } else {
        Seq::empty()
    }
}

/// The absolute value of an integer.
pub open spec fn magnitude(v: int) -> nat {
    if v < 0 {
        (-v) as nat
    } else {
        v as nat
    }
}

/// The text of a quantity held in hundredths, with two decimals
/// (`1234` reads `12.34`, `-5` reads `-0.05`).
pub open spec fn hundredths_text(v: int) -> Seq<char> {
    let m = magnitude(v);
    sign_text(v) + decimal_text(m / 100) + "."@ + digit_text(((m % 100) / 10) as int)
        + digit_text((m % 10) as int)
}

/// The text of a quantity held in tenths, with one decimal
/// (`85` reads `8.5`).
pub open spec fn tenths_text(v: int) -> Seq<char> {
    let m = magnitude(v);
    sign_text(v) + decimal_text(m / 10) + "."@ + digit_text((m % 10) as int)
}

/// Appends the text of a digit.
pub fn push_digit(s: &mut String, d: u64)
    requires
        d < 10,
    ensures
        final(s)@ == old(s)@ + digit_text(d as int),
{
    if d == 0 {
        s.append("0");
    } else if d == 1 {
        s.append("1");
    } else if d == 2 {
        s.append("2");
    } else if d == 3 {
        s.append("3");
    } else if d == 4 {
        s.append("4");
    } else if d == 5 {
        s.append("5");
    } else if d == 6 {
        s.append("6");
    } else if d == 7 {
        s.append("7");
    } else if d == 8 {
        s.append("8");
    } else {
        s.append("9");
    }
}

/// Appends the decimal text of `n`.
pub fn push_decimal(s: &mut String, n: u64)
    ensures
        final(s)@ == old(s)@ + decimal_text(n as nat),
    decreases n,
{
    if n >= 10 {
        push_decimal(s, n / 10);
        push_digit(s, n % 10);
        proof {
            assert(old(s)@ + decimal_text((n / 10) as nat) + digit_text((n % 10) as int)
                =~= old(s)@ + decimal_text(n as nat));
        }
    } else {
        push_digit(s, n);
    }
}

/// The absolute value of an `i64`, which always fits in a `u64`.
fn magnitude_of(v: i64) -> (m: u64)
    ensures
        m as nat == magnitude(v as int),
{
    if v < 0 {
        let w: i64 = -(v + 1);
        (w as u64) + 1
    } else {
        v as u64
    }
}

/// Appends the text of a quantity held in hundredths, with two decimals.
pub fn push_hundredths(s: &mut String, v: i64)
    ensures
        final(s)@ == old(s)@ + hundredths_text(v as int),
{
    let m = magnitude_of(v);
    if v < 0 {
        s.append("-");
    }
    let ghost after_sign = s@;
    push_decimal(s, m / 100);
    s.append(".");
    push_digit(s, (m % 100) / 10);
    push_digit(s, m % 10);
    proof {
        assert(old(s)@ + sign_text(v as int) =~= after_sign);
        assert(s@ =~= old(s)@ + hundredths_text(v as int));
    }
}

/// Appends the text of a quantity held in tenths, with one decimal.
pub fn push_tenths(s: &mut String, v: i64)
    ensures
        final(s)@ == old(s)@ + tenths_text(v as int),
{
    let m = magnitude_of(v);
    if v < 0 {
        s.append("-");
    }
    let ghost after_sign = s@;
    push_decimal(s, m / 10);
    s.append(".");
    push_digit(s, m % 10);
    proof {
        assert(old(s)@ + sign_text(v as int) =~= after_sign);
        assert(s@ =~= old(s)@ + tenths_text(v as int));
    }
}

} // verus!
