//! ISO 4217 currencies and monetary amounts.

use crate::error::{Error, Result};
use crate::text::{
    all_digits, decimal, decimal_string, digit_char, digit_str, digits_value, lemma_digit_char,
    push_decimal,
};
use vstd::prelude::*;

verus! {

/// ISO 4217 currency code (numeric, zero-padded to 3 digits).
#[derive(Debug, Clone, Copy, PartialEq, Eq, Hash)]
pub struct Currency(u16);

/// The three-digit rendering of `n < 1000`, with leading zeros.
pub open spec fn zero_padded3(n: nat) -> Seq<char> {
    seq![digit_char(n / 100), digit_char((n / 10) % 10), digit_char(n % 10)]
}

/// The zero-padded string of a currency code has three digits and reads back
/// as the code.
pub proof fn lemma_zero_padded3(n: nat)
    requires
        n <= 999,
    ensures
        zero_padded3(n).len() == 3,
        all_digits(zero_padded3(n)),
        digits_value(zero_padded3(n)) == n,
{
    let s = zero_padded3(n);
    lemma_digit_char(n / 100);
    lemma_digit_char((n / 10) % 10);
    lemma_digit_char(n % 10);
    assert(n / 100 < 10);
    assert(s.drop_last().drop_last().drop_last() =~= Seq::<char>::empty());
    assert(digits_value(Seq::<char>::empty()) == 0);
    assert(s.drop_last().drop_last() =~= seq![digit_char(n / 100)]);
    assert(s.drop_last() =~= seq![digit_char(n / 100), digit_char((n / 10) % 10)]);
    assert(digits_value(s.drop_last().drop_last()) == n / 100);
    assert(digits_value(s.drop_last()) == (n / 100) * 10 + (n / 10) % 10);
    assert(n == ((n / 100) * 10 + (n / 10) % 10) * 10 + n % 10);
}

impl Currency {
    /// A currency code is a number from 0 to 999.
    #[verifier::type_invariant]
    spec fn inv(self) -> bool {
        self.0 <= 999
    }

    /// The numeric ISO 4217 code.
    pub closed spec fn spec_code(self) -> u16 {
        self.0
    }

    /// ISO 4217 GBP (numeric code 826).
    #[allow(non_snake_case)]
    pub fn GBP() -> (r: Self)
        ensures
            r.spec_code() == 826,
    {
        Self(826)
    }
    /// ISO 4217 USD (numeric code 840).
    #[allow(non_snake_case)]
    pub fn USD() -> (r: Self)
        ensures
            r.spec_code() == 840,
    {
        Self(840)
    }
    /// ISO 4217 EUR (numeric code 978).
    #[allow(non_snake_case)]
    pub fn EUR() -> (r: Self)
        ensures
            r.spec_code() == 978,
    {
        Self(978)
    }
    /// ISO 4217 NGN (numeric code 566).
    #[allow(non_snake_case)]
    pub fn NGN() -> (r: Self)
        ensures
            r.spec_code() == 566,
    {
        Self(566)
    }
    /// ISO 4217 ETB (numeric code 230).
    #[allow(non_snake_case)]
    pub fn ETB() -> (r: Self)
        ensures
            r.spec_code() == 230,
    {
        Self(230)
    }
    /// ISO 4217 KES (numeric code 404).
    #[allow(non_snake_case)]
    pub fn KES() -> (r: Self)
        ensures
            r.spec_code() == 404,
    {
        Self(404)
    }
    /// ISO 4217 GHS (numeric code 936).
    #[allow(non_snake_case)]
    pub fn GHS() -> (r: Self)
        ensures
            r.spec_code() == 936,
    {
        Self(936)
    }
    /// ISO 4217 INR (numeric code 356).
    #[allow(non_snake_case)]
    pub fn INR() -> (r: Self)
        ensures
            r.spec_code() == 356,
    {
        Self(356)
    }
    /// ISO 4217 PHP (numeric code 608).
    #[allow(non_snake_case)]
    pub fn PHP() -> (r: Self)
        ensures
            r.spec_code() == 608,
    {
        Self(608)
    }
    /// ISO 4217 MXN (numeric code 484).
    #[allow(non_snake_case)]
    pub fn MXN() -> (r: Self)
        ensures
            r.spec_code() == 484,
    {
        Self(484)
    }
    /// ISO 4217 MAD (numeric code 504).
    #[allow(non_snake_case)]
    pub fn MAD() -> (r: Self)
        ensures
            r.spec_code() == 504,
    {
        Self(504)
    }
    /// ISO 4217 AED (numeric code 784).
    #[allow(non_snake_case)]
    pub fn AED() -> (r: Self)
        ensures
            r.spec_code() == 784,
    {
        Self(784)
    }
    /// ISO 4217 SAR (numeric code 682).
    #[allow(non_snake_case)]
    pub fn SAR() -> (r: Self)
        ensures
            r.spec_code() == 682,
    {
        Self(682)
    }

    /// The currency with ISO 4217 numeric code `code`; codes above 999 are refused.
    pub fn new(code: u16) -> (r: Result<Self>)
        ensures
            code <= 999 ==> (r matches Ok(c) && c.spec_code() == code),
            code > 999 ==> (r matches Err(e) && e@ == (crate::error::ErrorView::InvalidField {
                field: "currency"@,
                reason: "ISO 4217 numeric code must be 0–999, got "@ + decimal(code as nat),
            })),
    {
        if code > 999 {
            let mut reason = String::from_str("ISO 4217 numeric code must be 0–999, got ");
            push_decimal(&mut reason, code as u64);
            return Err(Error::InvalidField { field: "currency", reason });
        }
        Ok(Self(code))
    }

    /// The numeric ISO 4217 code.
    pub fn code(self) -> (r: u16)
        ensures
            r == self.spec_code(),
            r <= 999,
    {
        proof {
            use_type_invariant(self);
        }
        self.0
    }

    /// Returns the zero-padded 3-digit string as required by the EMVCo spec.
    pub fn as_spec_string(self) -> (r: String)
        ensures
            r@ == zero_padded3(self.spec_code() as nat),
    {
        proof {
            use_type_invariant(self);
        }
        let n = self.0 as u64;
        let mut s = String::new();
        s.append(digit_str(n / 100));
        s.append(digit_str((n / 10) % 10));
        s.append(digit_str(n % 10));
        assert(s@ =~= zero_padded3(n as nat));
        s
    }
}

/// A monetary amount expressed in minor units (e.g. pence, cents) with
/// a currency and the number of minor-unit decimal places.
///
/// The EMVCo spec requires `purchaseAmount` as a numeric string (max 48 digits)
/// and `purchaseExponent` as the number of digits after the decimal point.
#[derive(Debug, Clone, PartialEq, Eq)]
pub struct Amount {
    /// Minor-unit value (e.g. 1099 for £10.99)
    pub minor_units: u64,
    pub currency: Currency,
    /// Decimal exponent per ISO 4217 (e.g. 2 for GBP → £X.XX)
    pub exponent: u8,
}

impl Amount {
    pub fn new(minor_units: u64, currency: Currency, exponent: u8) -> (r: Self)
        ensures
            r.minor_units == minor_units,
            r.currency == currency,
            r.exponent == exponent,
    {
        Self { minor_units, currency, exponent }
    }

    /// Convenience: construct from major units with a 2-digit exponent.
    pub fn from_major(major: u64, currency: Currency) -> (r: Self)
        requires
            major * 100 <= u64::MAX,
        ensures
            r.minor_units == major * 100,
            r.currency == currency,
            r.exponent == 2,
    {
        Self { minor_units: major * 100, currency, exponent: 2 }
    }

    /// EMVCo `purchaseAmount` field value.
    pub fn spec_amount(&self) -> (r: String)
        ensures
            r@ == decimal(self.minor_units as nat),
    {
        decimal_string(self.minor_units)
    }

    /// EMVCo `purchaseCurrency` field value.
    pub fn spec_currency(&self) -> (r: String)
        ensures
            r@ == zero_padded3(self.currency.spec_code() as nat),
    {
        self.currency.as_spec_string()
    }

    /// EMVCo `purchaseExponent` field value.
    pub fn spec_exponent(&self) -> (r: String)
        ensures
            r@ == decimal(self.exponent as nat),
    {
        decimal_string(self.exponent as u64)
    }
}

} // verus!
