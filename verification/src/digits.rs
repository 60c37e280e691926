//! Decimal digits of natural numbers, as text.

use vstd::arithmetic::div_mod::lemma_mod_breakdown;
use vstd::prelude::*;
use vstd::string::*;

verus! {

/// The character of one decimal digit.
pub open spec fn digit(d: int) -> char {
    seq!['0', '1', '2', '3', '4', '5', '6', '7', '8', '9'][d]
}

/// A number in decimal, with no leading zero.
pub open spec fn decimal(n: nat) -> Seq<char>
    decreases n,
{
    if n < 10 {
        seq![digit(n as int)]
    } else {
        decimal(n / 10).push(digit((n % 10) as int))
    }
}

/// The last `width` decimal digits of a number, zeros in front included.
pub open spec fn padded(n: nat, width: nat) -> Seq<char>
    decreases width,
{
    if width == 0 {
        Seq::empty()
    } else {
        padded(n / 10, (width - 1) as nat).push(digit((n % 10) as int))
    }
}

/// The digits of `n` as a fraction of `width` places, without the zeros at
/// its end: nothing at all for zero.
pub open spec fn trimmed(n: nat, width: nat) -> Seq<char>
    decreases width,
{
    if width == 0 {
        Seq::empty()
    } else if n % 10 == 0 {
        trimmed(n / 10, (width - 1) as nat)
    } else {
        padded(n, width)
    }
}

/// Ten to the power of `places`.
pub open spec fn pow10(places: nat) -> nat
    decreases places,
{
    if places == 0 {
        1
    } else {
        10 * pow10((places - 1) as nat)
    }
}

/// The digit that a character stands for; zero for any other character.
pub open spec fn digit_value(c: char) -> nat {
    if c == '1' {
        1
    } else if c == '2' {
        2
    } else if c == '3' {
        3
    } else if c == '4' {
        4
    } else if c == '5' {
        5
    } else if c == '6' {
        6
    } else if c == '7' {
        7
    } else if c == '8' {
        8
    } else if c == '9' {
        9
    } else {
        0
    }
}

/// The number that a sequence of decimal digits denotes.
pub open spec fn digits_value(text: Seq<char>) -> nat
    decreases text.len(),
{
    if text.len() == 0 {
        0
    } else {
        10 * digits_value(text.drop_last()) + digit_value(text.last())
    }
}

/// Powers of ten are positive and grow with the exponent.
pub proof fn lemma_pow10_grows(low: nat, high: nat)
    requires
        low <= high,
    ensures
        1 <= pow10(low) <= pow10(high),
    decreases high,
{
    if low < high {
        lemma_pow10_grows(low, (high - 1) as nat);
    } else if low > 0 {
        lemma_pow10_grows((low - 1) as nat, (low - 1) as nat);
    }
}

/// The character of a digit stands for that digit.
pub proof fn lemma_digit_value(d: int)
    requires
        0 <= d < 10,
    ensures
        digit_value(digit(d)) == d,
{
    if d == 0 {
    } else if d == 1 {
    } else if d == 2 {
    } else if d == 3 {
    } else if d == 4 {
    } else if d == 5 {
    } else if d == 6 {
    } else if d == 7 {
    } else if d == 8 {
    } else {
    }
}

/// The decimal text of a number denotes that number.
pub proof fn lemma_decimal_denotes(n: nat)
    ensures
        digits_value(decimal(n)) == n,
        decimal(n).len() >= 1,
    decreases n,
{
    lemma_digit_value((n % 10) as int);
    if n < 10 {
        assert(decimal(n).drop_last() =~= Seq::<char>::empty());
        assert(digits_value(decimal(n).drop_last()) == 0);
    } else {
        lemma_decimal_denotes(n / 10);
        assert(decimal(n).drop_last() =~= decimal(n / 10));
    }
}

/// The last `width` digits of a number are `width` characters, which
/// denote the number modulo ten to the power of `width`.
pub proof fn lemma_padded_denotes(n: nat, width: nat)
    ensures
        padded(n, width).len() == width,
        digits_value(padded(n, width)) == n % pow10(width),
    decreases width,
{
    if width > 0 {
        let rest = (width - 1) as nat;
        lemma_padded_denotes(n / 10, rest);
        lemma_pow10_grows(rest, rest);
        lemma_digit_value((n % 10) as int);
        assert(padded(n, width).drop_last() =~= padded(n / 10, rest));
        lemma_mod_breakdown(n as int, 10, pow10(rest) as int);
    }
}

/// A fraction without the zeros at its end has `width` digits at most,
/// and with those zeros put back it denotes the number modulo ten to the
/// power of `width`.
pub proof fn lemma_trimmed_denotes(n: nat, width: nat)
    ensures
        trimmed(n, width).len() <= width,
        digits_value(trimmed(n, width)) * pow10((width - trimmed(n, width).len()) as nat) == n
            % pow10(width),
    decreases width,
{
    let kept = trimmed(n, width);
    if width == 0 {
        assert(pow10(0) == 1);
        assert(digits_value(kept) == 0);
        assert(digits_value(kept) * pow10((width - kept.len()) as nat) == 0) by (nonlinear_arith)
            requires
                digits_value(kept) == 0,
        ;
    } else if n % 10 == 0 {
        let rest = (width - 1) as nat;
        lemma_trimmed_denotes(n / 10, rest);
        lemma_pow10_grows(rest, rest);
        lemma_mod_breakdown(n as int, 10, pow10(rest) as int);
        assert(kept == trimmed(n / 10, rest));
        let zeros = (rest - kept.len()) as nat;
        assert(pow10((width - kept.len()) as nat) == 10 * pow10(zeros));
        assert(digits_value(kept) * (10 * pow10(zeros)) == 10 * (digits_value(kept) * pow10(zeros)))
            by (nonlinear_arith);
        assert(n % pow10(width) == 10 * ((n / 10) % pow10(rest)));
    } else {
        lemma_padded_denotes(n, width);
        assert(pow10(0) == 1);
        assert(kept == padded(n, width));
        assert(digits_value(kept) * pow10((width - kept.len()) as nat) == digits_value(kept))
            by (nonlinear_arith)
            requires
                pow10((width - kept.len()) as nat) == 1,
        ;
    }
}

/// One decimal digit as a string slice.
fn digit_str(d: u8) -> (text: &'static str)
    requires
        d < 10,
    ensures
        text@ == seq![digit(d as int)],
{
    proof {
        reveal_strlit("0");
        reveal_strlit("1");
        reveal_strlit("2");
        reveal_strlit("3");
        reveal_strlit("4");
        reveal_strlit("5");
        reveal_strlit("6");
        reveal_strlit("7");
        reveal_strlit("8");
        reveal_strlit("9");
    }
    let text = match d {
        0 => "0",
        1 => "1",
        2 => "2",
        3 => "3",
        4 => "4",
        5 => "5",
        6 => "6",
        7 => "7",
        8 => "8",
        _ => "9",
    };
    assert(text@ =~= seq![digit(d as int)]);
    text
}

/// Appends a number in decimal.
pub(crate) fn push_decimal(out: &mut String, n: u128)
    ensures
        final(out)@ == old(out)@ + decimal(n as nat),
    decreases n,
{
    if n >= 10 {
        push_decimal(out, n / 10);
    }
    out.append(digit_str((n % 10) as u8));
    assert(final(out)@ =~= old(out)@ + decimal(n as nat));
}

/// Appends the last `width` digits of a number.
pub(crate) fn push_padded(out: &mut String, n: u32, width: u8)
    ensures
        final(out)@ == old(out)@ + padded(n as nat, width as nat),
    decreases width,
{
    if width > 0 {
        push_padded(out, n / 10, width - 1);
        out.append(digit_str((n % 10) as u8));
    }
    assert(final(out)@ =~= old(out)@ + padded(n as nat, width as nat));
}

/// Appends a fraction of `width` places without the zeros at its end.
pub(crate) fn push_trimmed(out: &mut String, n: u32, width: u8)
    ensures
        final(out)@ == old(out)@ + trimmed(n as nat, width as nat),
    decreases width,
{
    if width == 0 {
        assert(final(out)@ =~= old(out)@ + trimmed(n as nat, width as nat));
    } else if n % 10 == 0 {
        push_trimmed(out, n / 10, width - 1);
    } else {
        push_padded(out, n, width);
    }
}

/// A number in decimal.
pub fn decimal_text(n: u128) -> (text: String)
    ensures
        text@ == decimal(n as nat),
{
    let mut text = String::new();
    push_decimal(&mut text, n);
    assert(text@ =~= decimal(n as nat));
    text
}

} // verus!
