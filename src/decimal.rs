//! Non-negative fixed-point decimal with eighteen fractional digits.
//!
//! A `Decimal` holds its value as an integer count of 10^-18 units (its
//! atomics). The arithmetic that needs more than 128 bits, and the text form,
//! is done by `cosmwasm_std::Decimal`.
use vstd::prelude::*;

verus! {

/// 10^18: the number of atomics in one whole unit.
pub const DECIMAL_FRACTIONAL: u128 = 1_000_000_000_000_000_000;

/// Number of fractional digits of a `Decimal`.
pub const DECIMAL_PLACES: u32 = 18;

/// 10^n.
pub open spec fn pow10(n: nat) -> nat
    decreases n,
{
    if n == 0 {
        1
    } else {
        10 * pow10((n - 1) as nat)
    }
}

/// Atomics of `a * b` for two decimals given by their atomics: rounded down.
pub open spec fn mul_atomics(a: nat, b: nat) -> nat {
    (a * b) / (DECIMAL_FRACTIONAL as nat)
}

/// Atomics of `1 / a` for a decimal given by its atomics `a > 0`: rounded down.
pub open spec fn inv_atomics(a: nat) -> nat
    recommends
        a > 0,
{
    (DECIMAL_FRACTIONAL as nat * DECIMAL_FRACTIONAL as nat) / a
}

/// Atomics of the decimal `atomics * 10^-places`, before any range check.
pub open spec fn scaled_atomics(atomics: nat, places: nat) -> nat {
    if places <= DECIMAL_PLACES {
        atomics * pow10((DECIMAL_PLACES - places) as nat)
    } else {
        atomics / pow10((places - DECIMAL_PLACES) as nat)
    }
}

/// The text that `cosmwasm_std::Decimal` displays for the given atomics.
pub uninterp spec fn decimal_text(atomics: nat) -> Seq<char>;

/// Relies on `cosmwasm_std::Decimal::checked_mul`: the 256-bit product of the
/// atomics divided by 10^18, or an error when that does not fit in 128 bits.
#[verifier::external_body]
fn checked_mul_atomics(a: u128, b: u128) -> (r: Option<u128>)
    ensures
        r == (if mul_atomics(a as nat, b as nat) <= u128::MAX {
            Some(mul_atomics(a as nat, b as nat) as u128)
        } else {
            None::<u128>
        }),
{
    match cosmwasm_std::Decimal::raw(a).checked_mul(cosmwasm_std::Decimal::raw(b)) {
        Ok(d) => Some(d.atomics().u128()),
        Err(_) => None,
    }
}

/// Relies on `cosmwasm_std::Decimal::inv` (of its `Fraction` impl): `None` for
/// zero, else 10^36 divided by the atomics.
#[verifier::external_body]
fn inv_of_atomics(a: u128) -> (r: Option<u128>)
    ensures
        a == 0 ==> r is None,
        a != 0 ==> r == Some(inv_atomics(a as nat) as u128),
{
    match cosmwasm_std::Fraction::inv(&cosmwasm_std::Decimal::raw(a)) {
        Some(d) => Some(d.atomics().u128()),
        None => None,
    }
}

/// Relies on `cosmwasm_std::Decimal::from_atomics`: scales `atomics` from
/// `places` fractional digits to eighteen, failing with a range error when the
/// result exceeds 128 bits; with more than eighteen places it rounds down.
#[verifier::external_body]
fn from_atomics_scaled(atomics: u128, places: u32) -> (r: Option<u128>)
    ensures
        r == (if scaled_atomics(atomics as nat, places as nat) <= u128::MAX {
            Some(scaled_atomics(atomics as nat, places as nat) as u128)
        } else {
            None::<u128>
        }),
{
    match cosmwasm_std::Decimal::from_atomics(atomics, places) {
        Ok(d) => Some(d.atomics().u128()),
        Err(_) => None,
    }
}

/// Relies on the `Display` impl of `cosmwasm_std::Decimal`: the text depends
/// on the atomics alone.
#[verifier::external_body]
fn display_atomics(a: u128) -> (r: String)
    ensures
        r@ == decimal_text(a as nat),
{
    cosmwasm_std::Decimal::raw(a).to_string()
}

/// A non-negative fixed-point number: `atomics * 10^-18`.
#[derive(Clone, Copy, Debug, PartialEq, Eq, Structural, Hash, PartialOrd, Ord)]
pub struct Decimal {
    pub atomics: u128,
}

impl View for Decimal {
    type V = nat;

    /// The value in atomics (units of 10^-18).
    open spec fn view(&self) -> nat {
        self.atomics as nat
    }
}

impl Decimal {
    pub fn zero() -> (r: Decimal)
        ensures
            r@ == 0,
    {
        Decimal { atomics: 0 }
    }

    pub fn one() -> (r: Decimal)
        ensures
            r@ == DECIMAL_FRACTIONAL,
    {
        Decimal { atomics: DECIMAL_FRACTIONAL }
    }

    /// The decimal with the given atomics.
    pub fn raw(atomics: u128) -> (r: Decimal)
        ensures
            r@ == atomics,
    {
        Decimal { atomics }
    }

    /// The decimal `atomics * 10^-decimal_places`; `None` when it exceeds the
    /// range. With more than eighteen places the excess digits are dropped.
    pub fn from_atomics(atomics: u128, decimal_places: u32) -> (r: Option<Decimal>)
        ensures
            scaled_atomics(atomics as nat, decimal_places as nat) <= u128::MAX ==> r == Some(
                Decimal::raw_spec(scaled_atomics(atomics as nat, decimal_places as nat) as u128),
            ),
            scaled_atomics(atomics as nat, decimal_places as nat) > u128::MAX ==> r is None,
    {
        match from_atomics_scaled(atomics, decimal_places) {
            Some(a) => Some(Decimal { atomics: a }),
            None => None,
        }
    }

    pub open spec fn raw_spec(atomics: u128) -> Decimal {
        Decimal { atomics }
    }

    pub fn atomics(&self) -> (r: u128)
        ensures
            r == self@,
    {
        self.atomics
    }

    pub fn decimal_places(&self) -> (r: u32)
        ensures
            r == DECIMAL_PLACES,
    {
        DECIMAL_PLACES
    }

    pub fn is_zero(&self) -> (r: bool)
        ensures
            r == (self@ == 0),
    {
        self.atomics == 0
    }

    /// Sum of two decimals.
    pub fn add(self, other: Decimal) -> (r: Decimal)
        requires
            self@ + other@ <= u128::MAX,
        ensures
            r@ == self@ + other@,
    {
        Decimal { atomics: self.atomics + other.atomics }
    }

    /// Sum of two decimals; `None` when it exceeds the range.
    pub fn checked_add(self, other: Decimal) -> (r: Option<Decimal>)
        ensures
            self@ + other@ <= u128::MAX ==> r == Some(Decimal::raw_spec((self@ + other@) as u128)),
            self@ + other@ > u128::MAX ==> r is None,
    {
        if self.atomics <= u128::MAX - other.atomics {
            Some(Decimal { atomics: self.atomics + other.atomics })
        } else {
            None
        }
    }

    /// Difference of two decimals, the second no larger than the first.
    pub fn sub(self, other: Decimal) -> (r: Decimal)
        requires
            other@ <= self@,
        ensures
            r@ == self@ - other@,
    {
        Decimal { atomics: self.atomics - other.atomics }
    }

    /// Product of two decimals, rounded down to eighteen digits.
    pub fn mul(self, other: Decimal) -> (r: Decimal)
        requires
            mul_atomics(self@, other@) <= u128::MAX,
        ensures
            r@ == mul_atomics(self@, other@),
    {
        match checked_mul_atomics(self.atomics, other.atomics) {
            Some(a) => Decimal { atomics: a },
            None => Decimal { atomics: 0 },
        }
    }

    /// Product of two decimals, rounded down; `None` when it exceeds the range.
    pub fn checked_mul(self, other: Decimal) -> (r: Option<Decimal>)
        ensures
            mul_atomics(self@, other@) <= u128::MAX ==> r == Some(
                Decimal::raw_spec(mul_atomics(self@, other@) as u128),
            ),
            mul_atomics(self@, other@) > u128::MAX ==> r is None,
    {
        match checked_mul_atomics(self.atomics, other.atomics) {
            Some(a) => Some(Decimal { atomics: a }),
            None => None,
        }
    }

    /// The reciprocal, rounded down; `None` for zero.
    pub fn inv(&self) -> (r: Option<Decimal>)
        ensures
            self@ == 0 ==> r is None,
            self@ != 0 ==> r == Some(Decimal::raw_spec(inv_atomics(self@) as u128)),
    {
        match inv_of_atomics(self.atomics) {
            Some(a) => Some(Decimal { atomics: a }),
            None => None,
        }
    }

    /// The decimal in text: whole part, then a point and the fractional digits
    /// without trailing zeros when there are any.
    pub fn to_text(&self) -> (r: String)
        ensures
            r@ == decimal_text(self@),
    {
        display_atomics(self.atomics)
    }
}

} // verus!
