//! Decimal notation: the digits of a number, without leading zeros.

use vstd::prelude::*;
use vstd::string::StringExecFns;

verus! {

/// The decimal digits of a number as ASCII codes, most significant first.
pub open spec fn decimal_digits(n: nat) -> Seq<u8>
    decreases n,
{
    if n < 10 {
        seq![(48 + n) as u8]
    } else {
        decimal_digits(n / 10).push((48 + n % 10) as u8)
    }
}

/// The number that a sequence of ASCII digits stands for.
pub open spec fn decimal_value(digits: Seq<u8>) -> nat
    decreases digits.len(),
{
    if digits.len() == 0 {
        0
    } else {
        (10 * decimal_value(digits.drop_last()) + (digits.last() - 48)) as nat
    }
}

/// Ten to the `e`.
pub open spec fn pow10(e: nat) -> nat
    decreases e,
{
    if e == 0 {
        1
    } else {
        10 * pow10((e - 1) as nat)
    }
}

/// The digits as UTF-16 units.
pub open spec fn as_units(digits: Seq<u8>) -> Seq<u16> {
    digits.map(|i: int, d: u8| d as u16)
}

/// The digits as characters.
pub open spec fn as_chars(digits: Seq<u8>) -> Seq<char> {
    digits.map(|i: int, d: u8| d as char)
}

/// The notation is made of digits, has at least one of them, starts with
/// a zero for the number zero alone, and stands for the number it was
/// made from.
pub proof fn lemma_decimal_digits(n: nat)
    ensures
        decimal_digits(n).len() >= 1,
        forall|i: int| 0 <= i < decimal_digits(n).len() ==> 48 <= #[trigger] decimal_digits(n)[i] <= 57,
        decimal_digits(n)[0] == 48 <==> n == 0,
        decimal_value(decimal_digits(n)) == n,
    decreases n,
{
    let d = decimal_digits(n);
    if n < 10 {
        assert(d.drop_last() =~= Seq::<u8>::empty());
        assert(decimal_value(d.drop_last()) == 0);
    } else {
        lemma_decimal_digits(n / 10);
        let front = decimal_digits(n / 10);
        assert(d.drop_last() =~= front);
        assert(d[0] == front[0]);
        assert forall|i: int| 0 <= i < d.len() implies 48 <= #[trigger] d[i] <= 57 by {
            if i < front.len() {
                assert(d[i] == front[i]);
            }
        }
    }
}

/// A number below ten to the `digits` is written with at most `digits`
/// digits.
pub proof fn lemma_decimal_len(n: nat, digits: nat)
    requires
        digits >= 1,
        n < pow10(digits),
    ensures
        1 <= decimal_digits(n).len() <= digits,
    decreases digits,
{
    reveal_with_fuel(pow10, 2);
    if n >= 10 {
        if digits > 1 {
            lemma_decimal_len(n / 10, (digits - 1) as nat);
        }
    }
}

/// Every 64-bit number is written with at most twenty digits, and every
/// number below ten thousand million with at most ten.
pub proof fn lemma_decimal_len_machine(n: nat)
    ensures
        n <= u64::MAX ==> decimal_digits(n).len() <= 20,
        n < 10_000_000_000 ==> decimal_digits(n).len() <= 10,
{
    assert(pow10(10) == 10_000_000_000) by {
        reveal_with_fuel(pow10, 11);
    }
    assert(pow10(20) == 100_000_000_000_000_000_000) by {
        reveal_with_fuel(pow10, 21);
    }
    if n <= u64::MAX {
        lemma_decimal_len(n, 20);
    }
    if n < 10_000_000_000 {
        lemma_decimal_len(n, 10);
    }
}

/// Appends the decimal notation of `n` to `out`, as UTF-16 units.
pub fn push_decimal_units(out: &mut Vec<u16>, n: u64)
    ensures
        final(out)@ == old(out)@ + as_units(decimal_digits(n as nat)),
    decreases n,
{
    if n >= 10 {
        push_decimal_units(out, n / 10);
    }
    let digit: u16 = 48 + (n % 10) as u16;
    out.push(digit);
    assert(out@ =~= old(out)@ + as_units(decimal_digits(n as nat)));
}

/// The text of one digit.
fn digit_text(digit: u64) -> (text: &'static str)
    requires
        digit < 10,
    ensures
        text@ == seq![((48 + digit) as u8) as char],
{
    proof {
        reveal_strlit("0");
        reveal_strlit("1");
        reveal_strlit("2");
        reveal_strlit("3");
        reveal_strlit("4");
        reveal_strlit("5");
        reveal_strlit("6");
        reveal_strlit("7");
        reveal_strlit("8");
        reveal_strlit("9");
    }
    let text = match digit {
        0 => "0",
        1 => "1",
        2 => "2",
        3 => "3",
        4 => "4",
        5 => "5",
        6 => "6",
        7 => "7",
        8 => "8",
        _ => "9",
    };
    assert(text@ =~= seq![((48 + digit) as u8) as char]);
    text
}

/// Appends the decimal notation of `n` to `out`.
pub fn push_decimal(out: &mut String, n: u64)
    ensures
        final(out)@ == old(out)@ + as_chars(decimal_digits(n as nat)),
    decreases n,
{
    if n >= 10 {
        push_decimal(out, n / 10);
    }
    out.append(digit_text(n % 10));
    assert(out@ =~= old(out)@ + as_chars(decimal_digits(n as nat)));
}

/// The decimal notation of `n`.
pub fn decimal_string(n: u64) -> (text: String)
    ensures
        text@ == as_chars(decimal_digits(n as nat)),
{
    let mut text = String::new();
    push_decimal(&mut text, n);
    assert(text@ =~= as_chars(decimal_digits(n as nat)));
    text
}

} // verus!
