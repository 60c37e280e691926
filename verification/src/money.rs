//! Amounts in US dollars, as text.

use vstd::prelude::*;
use vstd::string::*;
use crate::digits::{decimal, lemma_pow10_grows, padded, pow10, push_padded};

verus! {

/// Decimal places of the dollar amounts that the tables show.
pub const USD_DECIMALS: u8 = 5;

/// Decimal places of the balance of an address in dollars.
pub const BALANCE_DECIMALS: u8 = 3;

/// The most decimal places that a dollar amount can have.
pub const MAX_DECIMALS: u8 = 9;

/// A number in decimal with a comma before every group of three digits,
/// counted from the right.
pub open spec fn grouped(n: nat) -> Seq<char>
    decreases n,
{
    if n < 1000 {
        decimal(n)
    } else {
        grouped(n / 1000) + seq![','] + padded(n % 1000, 3)
    }
}

/// `to_formatted_string` of `num_format` with the locale `en`: the decimal
/// digits of the number with a comma between groups of three.
#[verifier::external_body]
pub(crate) fn group_thousands(n: u64) -> (text: String)
    ensures
        text@ == grouped(n as nat),
{
    num_format::ToFormattedString::to_formatted_string(&n, &num_format::Locale::en)
}

/// An amount in US dollars with a fixed number of decimal places: its
/// sign, its whole dollars, and its fraction counted in units of the last
/// place.
#[derive(Clone, Copy, Debug, PartialEq, Eq, Structural)]
pub struct UsdAmount {
    negative: bool,
    whole: u64,
    fraction: u32,
    places: u8,
}

/// What a [`UsdAmount`] holds.
pub struct UsdAmountView {
    pub negative: bool,
    pub whole: u64,
    pub fraction: u32,
    pub places: u8,
}

impl View for UsdAmount {
    type V = UsdAmountView;

    closed spec fn view(&self) -> UsdAmountView {
        UsdAmountView {
            negative: self.negative,
            whole: self.whole,
            fraction: self.fraction,
            places: self.places,
        }
    }
}

impl DeepView for UsdAmount {
    type V = UsdAmountView;

    open spec fn deep_view(&self) -> UsdAmountView {
        self@
    }
}

impl UsdAmountView {
    /// The fraction is less than one dollar.
    pub open spec fn wf(self) -> bool {
        self.places <= MAX_DECIMALS && self.fraction < pow10(self.places as nat)
    }

    /// The label of the amount: a minus sign if it is negative, a dollar
    /// sign, the whole dollars in groups of three digits and, if the
    /// amount has decimal places, a point and every one of them.
    pub open spec fn text(self) -> Seq<char> {
        let sign = if self.negative {
            seq!['-']
        } else {
            Seq::empty()
        };
        let fraction = if self.places == 0 {
            Seq::empty()
        } else {
            seq!['.'] + padded(self.fraction as nat, self.places as nat)
        };
        sign + seq!['$'] + grouped(self.whole as nat) + fraction
    }
}

/// Ten to the power of `places`.
fn power_of_ten(places: u8) -> (power: u32)
    requires
        places <= MAX_DECIMALS,
    ensures
        power == pow10(places as nat),
{
    let mut power: u32 = 1;
    let mut i: u8 = 0;
    assert(pow10(9) == 1_000_000_000) by {
        reveal_with_fuel(pow10, 10);
    }
    while i < places
        invariant
            i <= places <= MAX_DECIMALS,
            power == pow10(i as nat),
            pow10(9) == 1_000_000_000,
        decreases places - i,
    {
        proof {
            lemma_pow10_grows(i as nat + 1, 9);
        }
        power = power * 10;
        i = i + 1;
    }
    power
}

impl UsdAmount {
    #[verifier::type_invariant]
    spec fn well_formed(self) -> bool {
        self@.wf()
    }

    /// The amount with the given sign, whole dollars and fraction, where
    /// the fraction counts units of the last of `places` decimal places:
    /// `None` for more than nine places, or a fraction of a dollar or more.
    pub fn new(negative: bool, whole: u64, fraction: u32, places: u8) -> (amount: Option<UsdAmount>)
        ensures
            amount is Some <==> (UsdAmountView { negative, whole, fraction, places }).wf(),
            amount matches Some(a) ==> a@ == (UsdAmountView { negative, whole, fraction, places }),
    {
        if places <= MAX_DECIMALS && fraction < power_of_ten(places) {
            Some(UsdAmount { negative, whole, fraction, places })
        } else {
            None
        }
    }

    /// No dollars at all, with the given number of decimal places, or
    /// with nine where more are asked for.
    pub fn zero(places: u8) -> (amount: UsdAmount)
        ensures
            amount@ == (UsdAmountView {
                negative: false,
                whole: 0,
                fraction: 0,
                places: if places <= MAX_DECIMALS {
                    places
                } else {
                    MAX_DECIMALS
                },
            }),
    {
        let places = if places <= MAX_DECIMALS {
            places
        } else {
            MAX_DECIMALS
        };
        proof {
            lemma_pow10_grows(places as nat, places as nat);
        }
        UsdAmount { negative: false, whole: 0, fraction: 0, places }
    }

    /// Whether the amount is below zero.
    pub fn is_negative(&self) -> (negative: bool)
        ensures
            negative == self@.negative,
    {
        self.negative
    }

    /// The whole dollars.
    pub fn whole_dollars(&self) -> (whole: u64)
        ensures
            whole == self@.whole,
    {
        self.whole
    }

    /// The fraction, in units of the last decimal place.
    pub fn fraction(&self) -> (fraction: u32)
        ensures
            fraction == self@.fraction,
            fraction < pow10(self@.places as nat),
    {
        proof {
            use_type_invariant(self);
        }
        self.fraction
    }

    /// The number of decimal places.
    pub fn decimal_places(&self) -> (places: u8)
        ensures
            places == self@.places,
            places <= MAX_DECIMALS,
    {
        proof {
            use_type_invariant(self);
        }
        self.places
    }

    /// The label of the amount, such as `$1,234.50000`.
    pub fn label(&self) -> (text: String)
        ensures
            text@ == self@.text(),
    {
        let mut text = String::new();
        if self.negative {
            text.append("-");
        }
        text.append("$");
        text.append(group_thousands(self.whole).as_str());
        if self.places != 0 {
            text.append(".");
            push_padded(&mut text, self.fraction, self.places);
        }
        proof {
            reveal_strlit("-");
            reveal_strlit("$");
            reveal_strlit(".");
            assert(text@ =~= self@.text());
        }
        text
    }
}

} // verus!
