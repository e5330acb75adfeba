//! Signed fixed-point decimal: a `Decimal` magnitude and a sign flag.
//!
//! A value is `-magnitude` when the flag is set and `magnitude` otherwise, so
//! a zero magnitude is zero whatever its flag. Every constructor and every
//! operation hands back zero with the flag clear.
use crate::decimal::{inv_atomics, mul_atomics, scaled_atomics, Decimal, DECIMAL_FRACTIONAL};
use crate::error::{generic_error, ContractError};
use vstd::prelude::*;

verus! {

/// The order of two integers as a `std::cmp::Ordering`.
pub open spec fn ordering_of(a: int, b: int) -> std::cmp::Ordering {
    if a < b {
        std::cmp::Ordering::Less
    } else if a == b {
        std::cmp::Ordering::Equal
    } else {
        std::cmp::Ordering::Greater
    }
}

/// Absolute value of an integer.
pub open spec fn abs(x: int) -> int {
    if x < 0 {
        -x
    } else {
        x
    }
}

/// The tolerance of `roughly_equal`, in atomics: 10^-8.
pub open spec fn epsilon_atomics() -> int {
    10_000_000_000
}

/// The range error of `SignedDecimal::from_atomics`.
#[derive(Clone, Copy, Debug, PartialEq, Eq, Structural)]
pub struct DecimalRangeExceeded;

/// Failure of a division.
#[derive(Clone, Copy, Debug, PartialEq, Eq, Structural)]
pub enum ArithmeticError {
    DivideByZero,
    Overflow,
}

#[derive(Clone, Copy, Debug)]
pub struct SignedDecimal {
    pub decimal: Decimal,
    pub negative: bool,
}

impl SignedDecimal {
    /// The number this value stands for, in atomics (units of 10^-18).
    pub open spec fn value(self) -> int {
        if self.negative {
            -(self.decimal@ as int)
        } else {
            self.decimal@ as int
        }
    }

    /// Zero is held with the sign flag clear.
    pub open spec fn canonical(self) -> bool {
        self.negative ==> self.decimal@ > 0
    }

    /// The canonical value that stands for `v`.
    pub open spec fn from_value(v: int) -> SignedDecimal {
        if v < 0 {
            SignedDecimal { decimal: Decimal::raw_spec((-v) as u128), negative: true }
        } else {
            SignedDecimal { decimal: Decimal::raw_spec(v as u128), negative: false }
        }
    }

    /// The difference: `a` itself when `b`'s magnitude is zero, else the
    /// canonical value of `a - b`.
    pub open spec fn sub_spec(a: SignedDecimal, b: SignedDecimal) -> SignedDecimal {
        if b.decimal@ == 0 {
            a
        } else {
            SignedDecimal::from_value(a.value() - b.value())
        }
    }

    /// The product: magnitudes multiplied and rounded down, negative only when
    /// the signs differ and the product is not zero.
    pub open spec fn mul_spec(a: SignedDecimal, b: SignedDecimal) -> SignedDecimal {
        let m = mul_atomics(a.decimal@, b.decimal@);
        SignedDecimal {
            decimal: Decimal::raw_spec(m as u128),
            negative: a.negative != b.negative && m != 0,
        }
    }

    /// The canonical value with magnitude `m` and, unless `m` is zero, sign `neg`.
    pub open spec fn signed_spec(m: Decimal, neg: bool) -> SignedDecimal {
        SignedDecimal { decimal: m, negative: neg && m@ > 0 }
    }

    pub fn zero() -> (r: SignedDecimal)
        ensures
            r.decimal@ == 0,
            !r.negative,
    {
        SignedDecimal { decimal: Decimal::zero(), negative: false }
    }

    pub fn one() -> (r: SignedDecimal)
        ensures
            r.decimal@ == DECIMAL_FRACTIONAL,
            !r.negative,
    {
        SignedDecimal { decimal: Decimal::one(), negative: false }
    }

    /// The non-negative value `decimal`.
    pub fn new(decimal: Decimal) -> (r: SignedDecimal)
        ensures
            r == (SignedDecimal { decimal, negative: false }),
    {
        SignedDecimal { decimal, negative: false }
    }

    /// The non-negative value `*decimal`.
    pub fn new_from_ptr(decimal: &Decimal) -> (r: SignedDecimal)
        ensures
            r == (SignedDecimal { decimal: *decimal, negative: false }),
    {
        SignedDecimal { decimal: *decimal, negative: false }
    }

    /// The value `-decimal`; zero keeps the sign flag clear.
    pub fn new_negative(decimal: Decimal) -> (r: SignedDecimal)
        ensures
            r == SignedDecimal::signed_spec(decimal, true),
    {
        SignedDecimal { decimal, negative: !decimal.is_zero() }
    }

    /// The value `decimal` with the given sign; zero keeps the sign flag clear.
    pub fn new_signed(decimal: Decimal, negative: bool) -> (r: SignedDecimal)
        ensures
            r == SignedDecimal::signed_spec(decimal, negative),
    {
        SignedDecimal { decimal, negative: negative && !decimal.is_zero() }
    }

    /// The value `atomics * 10^-decimal_places` with the given sign, or a range
    /// error when its magnitude exceeds what eighteen fractional digits hold.
    pub fn from_atomics(atomics: u128, decimal_places: u32, negative: bool) -> (r: Result<
        SignedDecimal,
        DecimalRangeExceeded,
    >)
        ensures
            scaled_atomics(atomics as nat, decimal_places as nat) <= u128::MAX ==> r == Ok::<
                SignedDecimal,
                DecimalRangeExceeded,
            >(
                SignedDecimal::signed_spec(
                    Decimal::raw_spec(scaled_atomics(atomics as nat, decimal_places as nat) as u128),
                    negative,
                ),
            ),
            scaled_atomics(atomics as nat, decimal_places as nat) > u128::MAX ==> r == Err::<
                SignedDecimal,
                DecimalRangeExceeded,
            >(DecimalRangeExceeded),
    {
        match Decimal::from_atomics(atomics, decimal_places) {
            Some(decimal) => Ok(SignedDecimal::new_signed(decimal, negative)),
            None => Err(DecimalRangeExceeded),
        }
    }

    /// The value with its sign flipped; a zero magnitude is returned as it is.
    pub fn negation(&self) -> (r: SignedDecimal)
        ensures
            r.value() == -self.value(),
            r.decimal == self.decimal,
            self.decimal@ == 0 ==> r == *self,
            self.decimal@ != 0 ==> r.negative == !self.negative,
    {
        if self.decimal.is_zero() {
            return *self;
        }
        SignedDecimal { decimal: self.decimal, negative: !self.negative }
    }

    pub fn is_zero(&self) -> (r: bool)
        ensures
            r == (self.value() == 0),
    {
        self.decimal.is_zero()
    }

    /// Zero for a negative value, the value itself otherwise.
    pub fn positive_part(&self) -> (r: SignedDecimal)
        ensures
            self.negative ==> r.decimal@ == 0 && !r.negative,
            !self.negative ==> r == *self,
    {
        if self.negative {
            return SignedDecimal::zero();
        }
        *self
    }

    /// Total order by value: negative values by magnitude descending below
    /// every non-negative value, non-negative ones by magnitude ascending.
    /// Zero compares equal to zero whatever the sign flags.
    pub fn cmp(&self, other: &SignedDecimal) -> (r: std::cmp::Ordering)
        ensures
            r == ordering_of(self.value(), other.value()),
    {
        let a = self.decimal.atomics();
        let b = other.decimal.atomics();
        let self_below_zero = self.negative && a != 0;
        let other_below_zero = other.negative && b != 0;
        if self_below_zero && other_below_zero {
            if a > b {
                std::cmp::Ordering::Less
            } else if a == b {
                std::cmp::Ordering::Equal
            } else {
                std::cmp::Ordering::Greater
            }
        } else if !self_below_zero && !other_below_zero {
            if a < b {
                std::cmp::Ordering::Less
            } else if a == b {
                std::cmp::Ordering::Equal
            } else {
                std::cmp::Ordering::Greater
            }
        } else if !self_below_zero && other_below_zero {
            std::cmp::Ordering::Greater
        } else {
            std::cmp::Ordering::Less
        }
    }

    /// Sum. Same signs add magnitudes; opposite signs take the difference of
    /// the magnitudes with the sign of the larger one, zero being non-negative.
    pub fn add(self, other: SignedDecimal) -> (r: SignedDecimal)
        requires
            abs(self.value() + other.value()) <= u128::MAX,
        ensures
            r == SignedDecimal::from_value(self.value() + other.value()),
    {
        let a = self.decimal;
        let b = other.decimal;
        if self.negative == other.negative {
            let sum = a.add(b);
            SignedDecimal { decimal: sum, negative: self.negative && !sum.is_zero() }
        } else if a.atomics() > b.atomics() {
            SignedDecimal { decimal: a.sub(b), negative: self.negative }
        } else {
            let diff = b.sub(a);
            SignedDecimal { decimal: diff, negative: other.negative && !diff.is_zero() }
        }
    }

    /// `*self = *self + rhs`.
    pub fn add_assign(&mut self, rhs: SignedDecimal)
        requires
            abs(old(self).value() + rhs.value()) <= u128::MAX,
        ensures
            *final(self) == SignedDecimal::from_value(old(self).value() + rhs.value()),
    {
        *self = self.add(rhs);
    }

    /// Difference. Subtracting a zero magnitude returns `self` unchanged.
    pub fn sub(self, other: SignedDecimal) -> (r: SignedDecimal)
        requires
            abs(self.value() - other.value()) <= u128::MAX,
        ensures
            r == SignedDecimal::sub_spec(self, other),
    {
        if other.decimal.is_zero() {
            return self;
        }
        self.add(SignedDecimal { decimal: other.decimal, negative: !other.negative })
    }

    /// `*self = *self - rhs`.
    pub fn sub_assign(&mut self, rhs: SignedDecimal)
        requires
            abs(old(self).value() - rhs.value()) <= u128::MAX,
        ensures
            *final(self) == SignedDecimal::sub_spec(*old(self), rhs),
    {
        *self = self.sub(rhs);
    }

    /// Product: the magnitudes multiply (rounded down to eighteen digits); the
    /// result is negative only when the signs differ and the product is not zero.
    pub fn mul(self, other: SignedDecimal) -> (r: SignedDecimal)
        requires
            mul_atomics(self.decimal@, other.decimal@) <= u128::MAX,
        ensures
            r == SignedDecimal::mul_spec(self, other),
    {
        let product = self.decimal.mul(other.decimal);
        SignedDecimal {
            decimal: product,
            negative: self.negative != other.negative && !product.is_zero(),
        }
    }

    /// The magnitude in atomics.
    pub fn numerator(&self) -> (r: u128)
        ensures
            r == self.decimal@,
    {
        self.decimal.atomics()
    }

    /// The number of atomics in one unit.
    pub fn denominator(&self) -> (r: u128)
        ensures
            r == DECIMAL_FRACTIONAL,
    {
        DECIMAL_FRACTIONAL
    }

    /// The reciprocal of the magnitude, rounded down, with the same sign flag;
    /// `None` for zero.
    pub fn inv(&self) -> (r: Option<SignedDecimal>)
        ensures
            self.decimal@ == 0 ==> r is None,
            self.decimal@ != 0 ==> r == Some(
                SignedDecimal {
                    decimal: Decimal::raw_spec(inv_atomics(self.decimal@) as u128),
                    negative: self.negative,
                },
            ),
    {
        match self.decimal.inv() {
            Some(d) => Some(SignedDecimal { decimal: d, negative: self.negative }),
            None => None,
        }
    }

    /// Quotient: the magnitude of `self` times the rounded-down reciprocal of
    /// the magnitude of `rhs`, negative when exactly one operand is. Fails on a
    /// zero divisor, and when the product exceeds the range.
    pub fn div(self, rhs: SignedDecimal) -> (r: Result<SignedDecimal, ArithmeticError>)
        ensures
            rhs.decimal@ == 0 ==> r == Err::<SignedDecimal, ArithmeticError>(
                ArithmeticError::DivideByZero,
            ),
            rhs.decimal@ != 0 && mul_atomics(inv_atomics(rhs.decimal@), self.decimal@)
                > u128::MAX ==> r == Err::<SignedDecimal, ArithmeticError>(
                ArithmeticError::Overflow,
            ),
            rhs.decimal@ != 0 && mul_atomics(inv_atomics(rhs.decimal@), self.decimal@)
                <= u128::MAX ==> r == Ok::<SignedDecimal, ArithmeticError>(
                SignedDecimal::signed_spec(
                    Decimal::raw_spec(
                        mul_atomics(inv_atomics(rhs.decimal@), self.decimal@) as u128,
                    ),
                    self.negative != rhs.negative,
                ),
            ),
    {
        let reciprocal = match rhs.decimal.inv() {
            Some(d) => d,
            None => return Err(ArithmeticError::DivideByZero),
        };
        match reciprocal.checked_mul(self.decimal) {
            Some(magnitude) => Ok(SignedDecimal::new_signed(magnitude, self.negative != rhs.negative)),
            None => Err(ArithmeticError::Overflow),
        }
    }

    /// The value in text: the magnitude as `Decimal` shows it, after a minus
    /// sign when the value is below zero.
    pub fn to_text(&self) -> (r: String)
        ensures
            self.value() < 0 ==> r@ == seq!['-'] + crate::decimal::decimal_text(self.decimal@),
            self.value() >= 0 ==> r@ == crate::decimal::decimal_text(self.decimal@),
    {
        let text = self.decimal.to_text();
        if self.negative && !self.decimal.is_zero() {
            let mut s = String::from_str("-");
            proof {
                reveal_strlit("-");
            }
            s.append(text.as_str());
            s
        } else {
            text
        }
    }
}

/// Equality by value: a zero magnitude equals zero whatever its sign flag.
impl PartialEq for SignedDecimal {
    fn eq(&self, other: &SignedDecimal) -> (r: bool) {
        let a = self.decimal.atomics();
        let b = other.decimal.atomics();
        a == b && (a == 0 || self.negative == other.negative)
    }
}

impl vstd::std_specs::cmp::PartialEqSpecImpl for SignedDecimal {
    open spec fn obeys_eq_spec() -> bool {
        true
    }

    open spec fn eq_spec(&self, other: &SignedDecimal) -> bool {
        self.value() == other.value()
    }
}

impl Eq for SignedDecimal {}

impl PartialOrd for SignedDecimal {
    fn partial_cmp(&self, other: &SignedDecimal) -> (r: Option<std::cmp::Ordering>) {
        Some(self.cmp(other))
    }
}

impl vstd::std_specs::cmp::PartialOrdSpecImpl for SignedDecimal {
    open spec fn obeys_partial_cmp_spec() -> bool {
        true
    }

    open spec fn partial_cmp_spec(&self, other: &SignedDecimal) -> Option<std::cmp::Ordering> {
        Some(ordering_of(self.value(), other.value()))
    }
}

} // verus!

verus! {

/// Whether `semver` accepts the text as a version.
pub uninterp spec fn semver_accepts(text: Seq<char>) -> bool;

#[verifier::external_type_specification]
#[verifier::external_body]
pub struct ExVersion(semver::Version);

/// Relies on `semver::Version::parse`: whether the text parses depends on the
/// text alone; a failure is handed back as the error's message.
#[verifier::external_body]
fn parse_version(text: &str) -> (r: Result<semver::Version, String>)
    ensures
        r is Ok == semver_accepts(text@),
{
    match semver::Version::parse(text) {
        Ok(v) => Ok(v),
        Err(e) => Err(e.to_string()),
    }
}

/// Relies on the `PartialOrd` impl of `semver::Version`: `a >= b` in semver
/// precedence.
#[verifier::external_body]
fn version_at_least(a: &semver::Version, b: &semver::Version) -> (r: bool) {
    a >= b
}

/// 10^-8, the tolerance of `roughly_equal`.
fn epsilon() -> (r: Decimal)
    ensures
        r@ == epsilon_atomics(),
{
    proof {
        reveal_with_fuel(crate::decimal::pow10, 11);
    }
    match Decimal::from_atomics(1, 8) {
        Some(d) => d,
        None => Decimal::raw(10_000_000_000),
    }
}

/// Whether two non-negative decimals differ by less than 10^-8.
pub fn roughly_equal(d1: Decimal, d2: Decimal) -> (r: bool)
    ensures
        r == (abs(d1@ - d2@) < epsilon_atomics()),
{
    roughly_equal_signed(SignedDecimal::new(d1), SignedDecimal::new(d2))
}

/// Whether two signed decimals differ by less than 10^-8.
pub fn roughly_equal_signed(d1: SignedDecimal, d2: SignedDecimal) -> (r: bool)
    ensures
        r == (abs(d1.value() - d2.value()) < epsilon_atomics()),
{
    let eps = epsilon();
    let a = d1.decimal.atomics();
    let b = d2.decimal.atomics();
    let below1 = d1.negative && a != 0;
    let below2 = d2.negative && b != 0;
    if below1 == below2 {
        let diff = if a >= b { a - b } else { b - a };
        diff < eps.atomics()
    } else {
        // Opposite signs: the difference is the sum of the magnitudes.
        a < eps.atomics() && b < eps.atomics() - a
    }
}

/// The whole part of a decimal: its value rounded down to an integer.
pub fn decimal2uint128_floor(d: Decimal) -> (r: u128)
    ensures
        r == d@ / (DECIMAL_FRACTIONAL as nat),
{
    let base: u128 = 10;
    let atomics = d.atomics();
    let decimal_places = d.decimal_places();
    let divisor = pow_u128(base, decimal_places);
    atomics / divisor
}

/// The whole part of a decimal: its value rounded down to an integer.
pub fn decimal2u128_floor(d: Decimal) -> (r: u128)
    ensures
        r == d@ / (DECIMAL_FRACTIONAL as nat),
{
    let base: u128 = 10;
    let atomics = d.atomics();
    let decimal_places = d.decimal_places();
    atomics / pow_u128(base, decimal_places)
}

/// A decimal's value rounded up to an integer.
pub fn decimal2u128_ceiling(d: Decimal) -> (r: u128)
    ensures
        r as int == (d@ + DECIMAL_FRACTIONAL - 1) / (DECIMAL_FRACTIONAL as int),
{
    let base: u128 = 10;
    let atomics = d.atomics();
    let decimal_places = d.decimal_places();
    let divisor = pow_u128(base, decimal_places);
    let whole = atomics / divisor;
    if atomics % divisor == 0 {
        whole
    } else {
        whole + 1
    }
}

/// `10^exp` for the eighteen places of a `Decimal`.
fn pow_u128(base: u128, exp: u32) -> (r: u128)
    requires
        base == 10,
        exp == crate::decimal::DECIMAL_PLACES,
    ensures
        r == DECIMAL_FRACTIONAL,
{
    proof {
        reveal_with_fuel(crate::decimal::pow10, 19);
    }
    let mut r: u128 = 1;
    let mut i: u32 = 0;
    while i < exp
        invariant
            base == 10,
            exp == 18,
            i <= exp,
            r == crate::decimal::pow10(i as nat),
            crate::decimal::pow10(18) == 1_000_000_000_000_000_000,
        decreases exp - i,
    {
        proof {
            lemma_pow10_bound((i + 1) as nat, 18);
        }
        r = r * base;
        i = i + 1;
    }
    r
}

proof fn lemma_pow10_bound(i: nat, j: nat)
    requires
        i <= j,
    ensures
        crate::decimal::pow10(i) <= crate::decimal::pow10(j),
    decreases j,
{
    if i < j {
        lemma_pow10_bound(i, (j - 1) as nat);
    }
}

/// The checks before a migration, on what the contract store holds: the
/// stored contract name must equal `contract_name`, both versions must parse,
/// and the stored version must precede `contract_version`.
pub fn validate_migration(
    stored_contract: &str,
    stored_version: &str,
    contract_name: &str,
    contract_version: &str,
) -> (r: Result<(), ContractError>)
    ensures
        stored_contract@ != contract_name@ ==> r matches Err(ContractError::Std(_)),
        stored_contract@ == contract_name@ && !semver_accepts(stored_version@) ==> r matches Err(
            ContractError::SemVer(_),
        ),
        stored_contract@ == contract_name@ && semver_accepts(stored_version@) && !semver_accepts(
            contract_version@,
        ) ==> r matches Err(ContractError::SemVer(_)),
        stored_contract@ == contract_name@ && semver_accepts(stored_version@) && semver_accepts(
            contract_version@,
        ) ==> r is Ok || r matches Err(ContractError::Std(_)),
{
    if String::from_str(stored_contract) != String::from_str(contract_name) {
        return Err(ContractError::Std(generic_error("Can only upgrade from same type")));
    }
    let storage_version = match parse_version(stored_version) {
        Ok(v) => v,
        Err(msg) => return Err(ContractError::SemVer(msg)),
    };
    let version = match parse_version(contract_version) {
        Ok(v) => v,
        Err(msg) => return Err(ContractError::SemVer(msg)),
    };
    migration_outcome(version_at_least(&storage_version, &version))
}

/// The last check before a migration: refused when the stored version is not
/// older than the new one.
pub fn migration_outcome(stored_not_older: bool) -> (r: Result<(), ContractError>)
    ensures
        stored_not_older ==> r matches Err(ContractError::Std(_)),
        !stored_not_older ==> r is Ok,
{
    if stored_not_older {
        return Err(ContractError::Std(generic_error("Cannot upgrade from a newer version")));
    }
    Ok(())
}

} // verus!

verus! {

/// The sum of two non-negative decimals has the sum of their magnitudes and a
/// clear sign flag.
pub proof fn lemma_add_non_negative(a: Decimal, b: Decimal)
    requires
        a@ + b@ <= u128::MAX,
    ensures
        SignedDecimal::from_value(
            (SignedDecimal { decimal: a, negative: false }).value() + (SignedDecimal {
                decimal: b,
                negative: false,
            }).value(),
        ) == (SignedDecimal { decimal: Decimal::raw_spec((a@ + b@) as u128), negative: false }),
{
}

/// A positive decimal plus its negation is zero with a clear sign flag.
pub proof fn lemma_add_negation_is_zero(a: Decimal)
    requires
        a@ > 0,
    ensures
        SignedDecimal::from_value(
            (SignedDecimal { decimal: a, negative: false }).value() + SignedDecimal::signed_spec(
                a,
                true,
            ).value(),
        ) == (SignedDecimal { decimal: Decimal::raw_spec(0), negative: false }),
{
}

/// Non-negative values order by magnitude ascending, negative values by
/// magnitude descending, and every negative value is below every
/// non-negative one.
pub proof fn lemma_cmp_sign_magnitude(a: Decimal, b: Decimal, x: SignedDecimal, y: SignedDecimal)
    ensures
        ordering_of(
            (SignedDecimal { decimal: a, negative: false }).value(),
            (SignedDecimal { decimal: b, negative: false }).value(),
        ) == ordering_of(a@ as int, b@ as int),
        ordering_of(
            SignedDecimal::signed_spec(a, true).value(),
            SignedDecimal::signed_spec(b, true).value(),
        ) == ordering_of(b@ as int, a@ as int),
        x.value() < 0 && y.value() >= 0 ==> ordering_of(x.value(), y.value())
            == std::cmp::Ordering::Less,
{
}

/// Multiplying by a zero magnitude, on either side and whatever the signs,
/// gives zero with a clear sign flag.
pub proof fn lemma_mul_by_zero(x: SignedDecimal, z: SignedDecimal)
    requires
        z.decimal@ == 0,
    ensures
        SignedDecimal::mul_spec(x, z) == (SignedDecimal {
            decimal: Decimal::raw_spec(0),
            negative: false,
        }),
        SignedDecimal::mul_spec(z, x) == (SignedDecimal {
            decimal: Decimal::raw_spec(0),
            negative: false,
        }),
{
    assert(x.decimal@ * 0 == 0);
    assert(0 * x.decimal@ == 0);
}

} // verus!
