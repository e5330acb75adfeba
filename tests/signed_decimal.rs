use std::cmp::Ordering;
use vortex_common::decimal::Decimal;
use vortex_common::utils::{
    decimal2u128_ceiling, decimal2u128_floor, decimal2uint128_floor, roughly_equal,
    roughly_equal_signed, ArithmeticError, DecimalRangeExceeded, SignedDecimal,
};

const UNIT: u128 = 1_000_000_000_000_000_000;

fn whole(n: u128) -> Decimal {
    Decimal::raw(n * UNIT)
}

#[test]
fn add_of_non_negatives_sums_magnitudes() {
    let r = SignedDecimal::new(whole(2)).add(SignedDecimal::new(whole(3)));
    assert_eq!(r.decimal, whole(5));
    assert!(!r.negative);
}

#[test]
fn add_of_value_and_its_negation_is_plain_zero() {
    let a = Decimal::raw(1_234_567);
    let r = SignedDecimal::new(a).add(SignedDecimal::new_negative(a));
    assert_eq!(r.decimal, Decimal::zero());
    assert!(!r.negative);
    let r = SignedDecimal::new_negative(a).add(SignedDecimal::new(a));
    assert!(!r.negative);
    assert!(r.is_zero());
}

#[test]
fn add_of_opposite_signs_takes_sign_of_larger() {
    let r = SignedDecimal::new(whole(2)).add(SignedDecimal::new_negative(whole(5)));
    assert_eq!(r.decimal, whole(3));
    assert!(r.negative);
    let r = SignedDecimal::new_negative(whole(2)).add(SignedDecimal::new(whole(5)));
    assert_eq!(r.decimal, whole(3));
    assert!(!r.negative);
    let r = SignedDecimal::new_negative(whole(2)).add(SignedDecimal::new_negative(whole(5)));
    assert_eq!(r.decimal, whole(7));
    assert!(r.negative);
}

#[test]
fn sub_and_assign_forms() {
    let mut x = SignedDecimal::new(whole(2));
    x.sub_assign(SignedDecimal::new(whole(5)));
    assert_eq!(x.decimal, whole(3));
    assert!(x.negative);
    x.add_assign(SignedDecimal::new(whole(10)));
    assert_eq!(x.decimal, whole(7));
    assert!(!x.negative);
    // Subtracting a zero magnitude leaves the value as it is.
    let y = SignedDecimal::new_negative(whole(4));
    let z = y.sub(SignedDecimal::zero());
    assert_eq!(z.decimal, whole(4));
    assert!(z.negative);
}

#[test]
fn cmp_orders_by_value() {
    let a = whole(2);
    let b = whole(5);
    assert_eq!(SignedDecimal::new(a).cmp(&SignedDecimal::new(b)), Ordering::Less);
    assert_eq!(SignedDecimal::new_negative(a).cmp(&SignedDecimal::new_negative(b)), Ordering::Greater);
    assert_eq!(SignedDecimal::new_negative(b).cmp(&SignedDecimal::new(a)), Ordering::Less);
    assert_eq!(SignedDecimal::new(a).cmp(&SignedDecimal::new_negative(b)), Ordering::Greater);
    assert_eq!(SignedDecimal::new(a).cmp(&SignedDecimal::new(a)), Ordering::Equal);
    assert!(SignedDecimal::new_negative(whole(1)) < SignedDecimal::zero());
}

#[test]
fn zero_is_one_value_whatever_the_flag() {
    let plain = SignedDecimal::zero();
    let flagged = SignedDecimal { decimal: Decimal::zero(), negative: true };
    assert_eq!(plain.cmp(&flagged), Ordering::Equal);
    assert!(plain == flagged);
    assert!(!SignedDecimal::new_negative(Decimal::zero()).negative);
    assert!(!SignedDecimal::new_signed(Decimal::zero(), true).negative);
    let n = flagged.negation();
    assert!(n.negative);
    assert!(n == plain);
}

#[test]
fn negation_flips_sign() {
    let x = SignedDecimal::new(whole(3)).negation();
    assert!(x.negative);
    assert_eq!(x.decimal, whole(3));
    assert!(!x.negation().negative);
}

#[test]
fn mul_by_zero_is_plain_zero() {
    let neg = SignedDecimal::new_negative(whole(7));
    let flagged_zero = SignedDecimal { decimal: Decimal::zero(), negative: true };
    for z in [SignedDecimal::zero(), flagged_zero] {
        let r = neg.mul(z);
        assert_eq!(r.decimal, Decimal::zero());
        assert!(!r.negative);
        let r = z.mul(neg);
        assert!(!r.negative);
    }
}

#[test]
fn mul_exact_values() {
    let r = SignedDecimal::new_negative(Decimal::raw(UNIT / 2)).mul(SignedDecimal::new(whole(3)));
    assert_eq!(r.decimal, Decimal::raw(3 * UNIT / 2));
    assert!(r.negative);
    let r = SignedDecimal::new_negative(whole(2)).mul(SignedDecimal::new_negative(whole(3)));
    assert_eq!(r.decimal, whole(6));
    assert!(!r.negative);
}

#[test]
fn div_scenarios() {
    assert_eq!(
        SignedDecimal::new(whole(6)).div(SignedDecimal::zero()).unwrap_err(),
        ArithmeticError::DivideByZero
    );
    let r = SignedDecimal::new(whole(6)).div(SignedDecimal::new(whole(2))).unwrap();
    assert_eq!(r.decimal, whole(3));
    assert!(!r.negative);
    let r = SignedDecimal::new_negative(whole(6)).div(SignedDecimal::new(whole(2))).unwrap();
    assert_eq!(r.decimal, whole(3));
    assert!(r.negative);
    let big = SignedDecimal::new(Decimal::raw(u128::MAX));
    assert_eq!(
        big.div(SignedDecimal::new(Decimal::raw(UNIT / 10))).unwrap_err(),
        ArithmeticError::Overflow
    );
}

#[test]
fn inv_of_signed() {
    assert!(SignedDecimal::zero().inv().is_none());
    let r = SignedDecimal::new_negative(whole(4)).inv().unwrap();
    assert_eq!(r.decimal, Decimal::raw(UNIT / 4));
    assert!(r.negative);
    assert_eq!(r.numerator(), UNIT / 4);
    assert_eq!(r.denominator(), UNIT);
}

#[test]
fn from_atomics_scales_and_checks_range() {
    let r = SignedDecimal::from_atomics(15u128, 1, true).unwrap();
    assert_eq!(r.decimal, Decimal::raw(15 * UNIT / 10));
    assert!(r.negative);
    let r = SignedDecimal::from_atomics(123u128, 20, false).unwrap();
    assert_eq!(r.decimal, Decimal::raw(1));
    assert_eq!(SignedDecimal::from_atomics(u128::MAX, 0, false), Err(DecimalRangeExceeded));
    let r = SignedDecimal::from_atomics(0u128, 3, true).unwrap();
    assert!(!r.negative);
}

#[test]
fn positive_part_clamps_negatives() {
    let r = SignedDecimal::new_negative(whole(3)).positive_part();
    assert!(r.is_zero());
    assert!(!r.negative);
    let r = SignedDecimal::new(whole(3)).positive_part();
    assert_eq!(r.decimal, whole(3));
}

#[test]
fn roughly_equal_uses_ten_to_minus_eight() {
    assert!(roughly_equal(Decimal::raw(UNIT), Decimal::raw(UNIT + 9_999_999_999)));
    assert!(!roughly_equal(Decimal::raw(UNIT), Decimal::raw(UNIT + 10_000_000_000)));
    assert!(roughly_equal_signed(
        SignedDecimal::new_negative(Decimal::raw(4_000_000_000)),
        SignedDecimal::new(Decimal::raw(5_000_000_000))
    ));
    assert!(!roughly_equal_signed(
        SignedDecimal::new_negative(Decimal::raw(5_000_000_000)),
        SignedDecimal::new(Decimal::raw(5_000_000_000))
    ));
    assert!(!roughly_equal_signed(
        SignedDecimal::new_negative(Decimal::raw(u128::MAX)),
        SignedDecimal::new(Decimal::raw(u128::MAX))
    ));
}

#[test]
fn integer_conversions_round() {
    let d = Decimal::raw(2 * UNIT + 1);
    assert_eq!(decimal2u128_floor(d), 2);
    assert_eq!(decimal2uint128_floor(d), 2);
    assert_eq!(decimal2u128_ceiling(d), 3);
    assert_eq!(decimal2u128_ceiling(whole(2)), 2);
    assert_eq!(decimal2u128_ceiling(Decimal::zero()), 0);
    assert_eq!(decimal2u128_ceiling(Decimal::raw(u128::MAX)), u128::MAX / UNIT + 1);
}

#[test]
fn text_forms() {
    assert_eq!(Decimal::raw(3 * UNIT / 2).to_text(), "1.5");
    assert_eq!(SignedDecimal::new_negative(Decimal::raw(3 * UNIT / 2)).to_text(), "-1.5");
    assert_eq!(SignedDecimal::new(whole(42)).to_text(), "42");
    let flagged_zero = SignedDecimal { decimal: Decimal::zero(), negative: true };
    assert_eq!(flagged_zero.to_text(), "0");
}

#[test]
fn decimal_mul_and_checked_forms() {
    assert_eq!(whole(2).mul(Decimal::raw(UNIT / 4)), Decimal::raw(UNIT / 2));
    assert!(Decimal::raw(u128::MAX).checked_mul(whole(2)).is_none());
    assert!(Decimal::raw(u128::MAX).checked_add(Decimal::raw(1)).is_none());
    assert_eq!(Decimal::from_atomics(1, 8), Some(Decimal::raw(10_000_000_000)));
    assert_eq!(Decimal::one().decimal_places(), 18);
}
