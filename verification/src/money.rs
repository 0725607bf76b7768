//! Money amounts as the API sends them, and their display as dollars.

use vstd::prelude::*;

use crate::text::{decimal, digit, digit_char, push_char, push_decimal};

verus! {

/// An amount of money: ISO currency code, the decimal value as text, and the
/// value in the currency's smallest unit (cents).
pub struct MoneyObject {
    pub currency_code: String,
    pub value: String,
    pub value_in_base_units: i64,
}

/// The magnitude of an amount in cents.
pub open spec fn cents_magnitude(cents: int) -> nat {
    if cents >= 0 { cents as nat } else { (-cents) as nat }
}

/// `$D.CC` for a magnitude in cents: whole dollars, then exactly two
/// digits of cents.
pub open spec fn dollars_text(magnitude: nat) -> Seq<char> {
    seq!['$'] + decimal(magnitude / 100) + seq![
        '.',
        digit_char(((magnitude % 100) / 10) as int),
        digit_char((magnitude % 10) as int),
    ]
}

/// The display of an amount: non-negative amounts always carry `+`;
/// negative ones carry `-` only when `signed` is asked for.
pub open spec fn money_display(cents: int, signed: bool) -> Seq<char> {
    let body = dollars_text(cents_magnitude(cents));
    if cents >= 0 {
        seq!['+'] + body
    } else if signed {
        seq!['-'] + body
    } else {
        body
    }
}

/// The magnitude of a signed amount as an unsigned number.
pub fn unsigned_magnitude(cents: i64) -> (m: u64)
    ensures
        m == cents_magnitude(cents as int),
{
    if cents >= 0 {
        cents as u64
    } else {
        let shifted: i64 = -(cents + 1);
        (shifted as u64) + 1
    }
}

impl MoneyObject {
    /// Format as a dollar amount. When `signed` is true, both positive and
    /// negative values get an explicit sign (`+$1.23` / `-$1.23`). When false,
    /// only positive values get a `+` prefix and negatives show as `$1.23`.
    pub fn format_display(&self, signed: bool) -> (s: String)
        ensures
            s@ == money_display(self.value_in_base_units as int, signed),
    {
        let cents = self.value_in_base_units;
        let magnitude = unsigned_magnitude(cents);
        let mut s = String::new();
        if cents >= 0 {
            push_char(&mut s, '+');
        } else if signed {
            push_char(&mut s, '-');
        }
        let ghost prefix = s@;
        push_char(&mut s, '$');
        push_decimal(&mut s, magnitude / 100);
        push_char(&mut s, '.');
        push_char(&mut s, digit((magnitude % 100) / 10));
        push_char(&mut s, digit(magnitude % 10));
        assert(s@ =~= prefix + dollars_text(magnitude as nat));
        s
    }
}

} // verus!
