use sienna::decimal_math::{decimal_multiplication, decimal_subtraction, Decimal, Uint128};
use sienna::error::ContractError;

fn ratio(n: u128, d: u128) -> Decimal {
    Decimal::from_ratio(Uint128(n), Uint128(d))
}

#[test]
fn subtraction_of_halves() {
    assert_eq!(decimal_subtraction(ratio(3, 2), ratio(1, 2)), Ok(Decimal::one()));
}

#[test]
fn subtraction_underflow() {
    assert_eq!(
        decimal_subtraction(ratio(1, 2), ratio(3, 2)),
        Err(ContractError::Underflow { minuend: 500_000_000, subtrahend: 1_500_000_000 })
    );
}

#[test]
fn subtraction_truncates_to_nine_digits() {
    let a = Decimal(1_234_567_891_234_567_891);
    assert_eq!(decimal_subtraction(a, Decimal::zero()), Ok(Decimal(1_234_567_891_000_000_000)));
    assert_eq!(decimal_subtraction(a, a), Ok(Decimal::zero()));
}

#[test]
fn multiplication_values() {
    assert_eq!(decimal_multiplication(ratio(3, 2), ratio(2, 1)), ratio(3, 1));
    assert_eq!(decimal_multiplication(ratio(3, 2), Decimal::zero()), Decimal::zero());
    assert_eq!(decimal_multiplication(Decimal(1_234_567_891_234_567_891), Decimal::one()).atomics(),
        1_234_567_891_000_000_000);
    assert_eq!(decimal_multiplication(ratio(1, 4), ratio(1, 4)).atomics(), 62_500_000_000_000_000);
}

#[test]
fn operator_helpers() {
    assert_eq!(ratio(1, 3).atomics(), 333_333_333_333_333_333);
    assert_eq!(Uint128(10).mul_decimal(ratio(1, 4)), Uint128(2));
    assert_eq!(ratio(1, 4).mul_uint(Uint128(0)), Uint128(0));
    assert_eq!(Uint128(5).sub(Uint128(7)), Err(ContractError::Underflow { minuend: 5, subtrahend: 7 }));
    assert_eq!(Uint128(7).sub(Uint128(5)), Ok(Uint128(2)));
    assert!(Decimal::zero().is_zero());
    assert_eq!(Uint128(6).multiply_ratio(2, 4), Uint128(3));
}
