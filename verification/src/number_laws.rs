//! The decimal texts read back as the numbers they render.

use vstd::prelude::*;

use crate::text::{decimal_text, digit_text, hundredths_text, magnitude, tenths_text};

verus! {

/// Every character of `s` is a decimal digit.
pub open spec fn all_digits(s: Seq<char>) -> bool {
    forall|i: int| 0 <= i < s.len() ==> '0' <= #[trigger] s[i] <= '9'
}

/// The number that a string of decimal digits denotes.
pub open spec fn digits_value(s: Seq<char>) -> int
    decreases s.len(),
{
    if s.len() == 0 {
        0
    } else {
        digits_value(s.drop_last()) * 10 + (s.last() as int - '0' as int)
    }
}

/// The digits are written without leading zeros: a zero stands first
/// only as the whole text.
pub open spec fn no_leading_zero(s: Seq<char>) -> bool {
    s.len() >= 1 && (s[0] == '0' ==> s.len() == 1)
}

proof fn lemma_digit_text(d: int)
    requires
        0 <= d < 10,
    ensures
        digit_text(d).len() == 1,
        digit_text(d)[0] as int == '0' as int + d,
{
    reveal_strlit("0");
    reveal_strlit("1");
    reveal_strlit("2");
    reveal_strlit("3");
    reveal_strlit("4");
    reveal_strlit("5");
    reveal_strlit("6");
    reveal_strlit("7");
    reveal_strlit("8");
    reveal_strlit("9");
}

proof fn lemma_digits_push(s: Seq<char>, t: Seq<char>)
    requires
        t.len() == 1,
    ensures
        digits_value(s + t) == digits_value(s) * 10 + (t[0] as int - '0' as int),
{
    assert((s + t).drop_last() =~= s);
}

/// The decimal text of `n` is a string of digits without leading zeros
/// that denotes `n`.
pub proof fn law_decimal_text_reads_back(n: nat)
    ensures
        all_digits(decimal_text(n)),
        no_leading_zero(decimal_text(n)),
        digits_value(decimal_text(n)) == n,
    decreases n,
{
    if n < 10 {
        lemma_digit_text(n as int);
        let d = digit_text(n as int);
        assert(decimal_text(n) == d);
        assert(d.drop_last() =~= Seq::<char>::empty());
        assert(digits_value(Seq::<char>::empty()) == 0);
        assert(digits_value(d) == digits_value(d.drop_last()) * 10 + (d.last() as int - '0' as int));
        assert(digits_value(d) == n);
    } else {
        law_decimal_text_reads_back(n / 10);
        lemma_digit_text((n % 10) as int);
        lemma_digits_push(decimal_text(n / 10), digit_text((n % 10) as int));
        let s = decimal_text(n / 10) + digit_text((n % 10) as int);
        assert(decimal_text(n) == s);
        assert forall|i: int| 0 <= i < s.len() implies '0' <= #[trigger] s[i] <= '9' by {
            if i < decimal_text(n / 10).len() {
                assert(s[i] == decimal_text(n / 10)[i]);
            }
        }
        assert(s[0] == decimal_text(n / 10)[0]);
        if decimal_text(n / 10)[0] == '0' {
            let d = decimal_text(n / 10);
            assert(d.len() == 1);
            assert(d.drop_last() =~= Seq::<char>::empty());
            assert(digits_value(Seq::<char>::empty()) == 0);
            assert(digits_value(d) == digits_value(d.drop_last()) * 10 + (d.last() as int
                - '0' as int));
            assert(false);
        }
        assert((n / 10) * 10 + n % 10 == n) by (nonlinear_arith);
    }
}

/// The text of a quantity in hundredths: a minus sign exactly for a
/// negative quantity, then the whole units in digits without leading
/// zeros, a point, and two digits, which together denote the quantity's
/// magnitude in hundredths.
pub proof fn law_hundredths_text_reads_back(v: int)
    ensures
        ({
            let t = hundredths_text(v);
            let body = if v < 0 {
                t.subrange(1, t.len() as int)
            } else {
                t
            };
            let whole = body.subrange(0, body.len() - 3);
            let frac = body.subrange(body.len() - 2, body.len() as int);
            &&& t.len() >= 1
            &&& (t[0] == '-') == (v < 0)
            &&& body.len() >= 4
            &&& body[body.len() - 3] == '.'
            &&& all_digits(whole) && no_leading_zero(whole)
            &&& all_digits(frac)
            &&& digits_value(whole) * 100 + digits_value(frac) == magnitude(v)
        }),
{
    reveal_strlit("-");
    reveal_strlit(".");
    let m = magnitude(v);
    let dec = decimal_text(m / 100);
    law_decimal_text_reads_back(m / 100);
    lemma_digit_text(((m % 100) / 10) as int);
    lemma_digit_text((m % 10) as int);
    let a = digit_text(((m % 100) / 10) as int);
    let b = digit_text((m % 10) as int);
    let body = dec + "."@ + a + b;
    let t = hundredths_text(v);
    if v < 0 {
        assert(t.subrange(1, t.len() as int) =~= body);
    } else {
        assert(t =~= body);
        assert(t[0] == dec[0]);
        assert('0' <= dec[0] <= '9');
    }
    assert(body.subrange(0, body.len() - 3) =~= dec);
    let frac = body.subrange(body.len() - 2, body.len() as int);
    assert(frac =~= a + b);
    lemma_digits_push(a, b);
    assert(a.drop_last() =~= Seq::<char>::empty());
    assert(digits_value(Seq::<char>::empty()) == 0);
    assert(digits_value(a) == digits_value(a.drop_last()) * 10 + (a.last() as int - '0' as int));
    assert(digits_value(a + b) == digits_value(a) * 10 + (b[0] as int - '0' as int));
    assert(body[body.len() - 3] == '.');
    assert(((m % 100) / 10) * 10 + m % 10 == m % 100) by (nonlinear_arith);
    assert((m / 100) * 100 + m % 100 == m) by (nonlinear_arith);
    assert(digits_value(frac) == m % 100);
}

/// The text of a quantity in tenths: a minus sign exactly for a negative
/// quantity, then the whole units in digits without leading zeros, a
/// point, and one digit, which together denote the quantity's magnitude
/// in tenths.
pub proof fn law_tenths_text_reads_back(v: int)
    ensures
        ({
            let t = tenths_text(v);
            let body = if v < 0 {
                t.subrange(1, t.len() as int)
            } else {
                t
            };
            let whole = body.subrange(0, body.len() - 2);
            &&& t.len() >= 1
            &&& (t[0] == '-') == (v < 0)
            &&& body.len() >= 3
            &&& body[body.len() - 2] == '.'
            &&& all_digits(whole) && no_leading_zero(whole)
            &&& '0' <= body[body.len() - 1] <= '9'
            &&& digits_value(whole) * 10 + (body[body.len() - 1] as int - '0' as int) == magnitude(v)
        }),
{
    reveal_strlit("-");
    reveal_strlit(".");
    let m = magnitude(v);
    let dec = decimal_text(m / 10);
    law_decimal_text_reads_back(m / 10);
    lemma_digit_text((m % 10) as int);
    let b = digit_text((m % 10) as int);
    let body = dec + "."@ + b;
    let t = tenths_text(v);
    if v < 0 {
        assert(t.subrange(1, t.len() as int) =~= body);
    } else {
        assert(t =~= body);
        assert(t[0] == dec[0]);
        assert('0' <= dec[0] <= '9');
    }
    assert(body.subrange(0, body.len() - 2) =~= dec);
    assert(body[body.len() - 2] == '.');
    assert(body[body.len() - 1] == b[0]);
    assert((m / 10) * 10 + m % 10 == m) by (nonlinear_arith);
}

} // verus!
