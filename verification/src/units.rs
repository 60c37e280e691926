//! Amounts of bitcoin, held as whole numbers of satoshis.

use vstd::prelude::*;
use vstd::string::*;
use crate::digits::{decimal, digits_value, lemma_decimal_denotes, lemma_trimmed_denotes, pow10,
    push_decimal, push_trimmed, trimmed};

verus! {

/// Number of satoshis in one bitcoin.
pub const SATOSHIS_PER_BTC: u32 = 100_000_000;

/// Number of decimal places of a bitcoin amount.
pub const BTC_DECIMALS: u8 = 8;

/// An amount of bitcoin split into its sign, its whole bitcoins and the
/// satoshis left over, which are fewer than one bitcoin.
#[derive(Clone, Copy, Debug, PartialEq, Eq, Structural)]
pub struct Btc {
    negative: bool,
    whole: u128,
    fraction: u32,
}

/// The text of a non-negative amount: the whole bitcoins, then, unless the
/// amount is a whole number of bitcoins, a point and the fraction without
/// the zeros at its end.
pub open spec fn unsigned_btc_text(satoshis: nat) -> Seq<char> {
    let whole = satoshis / (SATOSHIS_PER_BTC as nat);
    let fraction = satoshis % (SATOSHIS_PER_BTC as nat);
    if fraction == 0 {
        decimal(whole)
    } else {
        decimal(whole) + seq!['.'] + trimmed(fraction, BTC_DECIMALS as nat)
    }
}

/// The text of an amount given in satoshis, in bitcoin.
pub open spec fn btc_text(satoshis: int) -> Seq<char> {
    if satoshis < 0 {
        seq!['-'] + unsigned_btc_text((-satoshis) as nat)
    } else {
        unsigned_btc_text(satoshis as nat)
    }
}

/// The text of an amount followed by its unit.
pub open spec fn btc_label(satoshis: int) -> Seq<char> {
    btc_text(satoshis) + " BTC"@
}

impl Btc {
    #[verifier::type_invariant]
    spec fn well_formed(self) -> bool {
        &&& self.fraction < SATOSHIS_PER_BTC
        &&& self.negative ==> self.whole > 0 || self.fraction > 0
    }

    /// Whether the amount is below zero.
    pub closed spec fn negative(self) -> bool {
        self.negative
    }

    /// The whole bitcoins of the magnitude.
    pub closed spec fn whole(self) -> nat {
        self.whole as nat
    }

    /// The satoshis of the magnitude beyond its whole bitcoins.
    pub closed spec fn fraction(self) -> nat {
        self.fraction as nat
    }

    /// The amount in satoshis that this value stands for.
    pub open spec fn satoshis(self) -> int {
        let magnitude = self.whole() * SATOSHIS_PER_BTC + self.fraction();
        if self.negative() {
            -magnitude
        } else {
            magnitude
        }
    }

    /// Splits a non-negative number of satoshis by exact division.
    pub fn from_unsigned(satoshis: u128) -> (btc: Btc)
        ensures
            !btc.negative(),
            btc.whole() == satoshis / 100_000_000,
            btc.fraction() == satoshis % 100_000_000,
            btc.satoshis() == satoshis,
    {
        let scale: u128 = SATOSHIS_PER_BTC as u128;
        Btc { negative: false, whole: satoshis / scale, fraction: (satoshis % scale) as u32 }
    }

    /// Splits a number of satoshis of either sign by exact division of its
    /// magnitude.
    pub fn from_satoshis(satoshis: i128) -> (btc: Btc)
        ensures
            btc.negative() == (satoshis < 0),
            btc.whole() == (if satoshis < 0 { -satoshis } else { satoshis as int }) / 100_000_000,
            btc.fraction() == (if satoshis < 0 { -satoshis } else { satoshis as int })
                % 100_000_000,
            btc.satoshis() == satoshis,
    {
        let magnitude: u128 = if satoshis < 0 {
            (-(satoshis + 1)) as u128 + 1
        } else {
            satoshis as u128
        };
        let scale: u128 = SATOSHIS_PER_BTC as u128;
        let whole: u128 = magnitude / scale;
        let fraction: u32 = (magnitude % scale) as u32;
        assert(whole == magnitude / 100_000_000 && fraction == magnitude % 100_000_000);
        Btc { negative: satoshis < 0, whole, fraction }
    }

    /// Whether the amount is below zero.
    pub fn is_negative(&self) -> (negative: bool)
        ensures
            negative == self.negative(),
    {
        self.negative
    }

    /// The whole bitcoins of the magnitude.
    pub fn whole_bitcoins(&self) -> (whole: u128)
        ensures
            whole == self.whole(),
    {
        self.whole
    }

    /// The satoshis of the magnitude beyond its whole bitcoins.
    pub fn fraction_satoshis(&self) -> (fraction: u32)
        ensures
            fraction == self.fraction(),
            fraction < SATOSHIS_PER_BTC,
    {
        proof {
            use_type_invariant(self);
        }
        self.fraction
    }

    /// The amount in bitcoin as decimal text.
    pub fn text(&self) -> (text: String)
        ensures
            text@ == btc_text(self.satoshis()),
    {
        let mut text = String::new();
        if self.negative {
            text.append("-");
        }
        push_decimal(&mut text, self.whole);
        if self.fraction != 0 {
            text.append(".");
            push_trimmed(&mut text, self.fraction, BTC_DECIMALS);
        }
        proof {
            use_type_invariant(self);
            reveal_strlit("-");
            reveal_strlit(".");
            let magnitude = self.whole * SATOSHIS_PER_BTC + self.fraction;
            assert(magnitude / (SATOSHIS_PER_BTC as int) == self.whole
                && magnitude % (SATOSHIS_PER_BTC as int) == self.fraction) by (nonlinear_arith)
                requires
                    magnitude == self.whole * SATOSHIS_PER_BTC + self.fraction,
                    0 <= self.fraction < SATOSHIS_PER_BTC,
                    SATOSHIS_PER_BTC == 100_000_000,
            ;
            assert(text@ =~= btc_text(self.satoshis()));
        }
        text
    }

    /// The amount followed by its unit, as in `2.5 BTC`.
    pub fn label(&self) -> (text: String)
        ensures
            text@ == btc_label(self.satoshis()),
    {
        let mut text = self.text();
        text.append(" BTC");
        text
    }
}

/// The label of a non-negative amount of satoshis.
pub fn unsigned_label(satoshis: u128) -> (text: String)
    ensures
        text@ == btc_label(satoshis as int),
{
    Btc::from_unsigned(satoshis).label()
}

/// The label of an amount of satoshis of either sign.
pub fn signed_label(satoshis: i128) -> (text: String)
    ensures
        text@ == btc_label(satoshis as int),
{
    Btc::from_satoshis(satoshis).label()
}

/// The text of an amount denotes the amount, to the satoshi. The digits
/// before the point denote the whole bitcoins. The digits after it, which
/// are eight at most, denote the satoshis beyond the whole bitcoins once
/// zeros fill the places that are left. There are no such digits, and no
/// point, exactly where the amount is a whole number of bitcoins.
pub proof fn lemma_btc_text_is_exact(satoshis: nat)
    ensures
        ({
            let whole = decimal(satoshis / 100_000_000);
            let fraction = trimmed(satoshis % 100_000_000, 8);
            &&& fraction.len() <= 8
            &&& fraction.len() == 0 <==> satoshis % 100_000_000 == 0
            &&& unsigned_btc_text(satoshis) == if fraction.len() == 0 {
                whole
            } else {
                whole + seq!['.'] + fraction
            }
            &&& digits_value(whole) * 100_000_000 + digits_value(fraction) * pow10(
                (8 - fraction.len()) as nat,
            ) == satoshis
        }),
{
    let rest = satoshis % 100_000_000;
    let fraction = trimmed(rest, 8);
    lemma_decimal_denotes(satoshis / 100_000_000);
    lemma_trimmed_denotes(rest, 8);
    assert(pow10(8) == 100_000_000) by {
        reveal_with_fuel(pow10, 9);
    }
    if rest == 0 {
        assert(fraction.len() == 0) by {
            reveal_with_fuel(trimmed, 9);
        }
    } else if fraction.len() == 0 {
        assert(digits_value(fraction) * pow10((8 - fraction.len()) as nat) == 0) by (nonlinear_arith)
            requires
                digits_value(fraction) == 0,
        ;
    }
}

} // verus!
