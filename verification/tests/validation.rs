//! Amounts, rates and checked arithmetic.

use kora::shared::errors::KoraError;
use kora::shared::validation::{
    bps_of, require_amount_within_bounds, require_future_timestamp, require_non_empty_bytes,
    require_non_empty_string, require_non_negative_amount, require_non_zero_amount,
    require_valid_bps_range, require_valid_fee_bps, require_valid_risk_score, safe_add, safe_div,
    safe_mul, safe_sub, BPS_SCALE, MAX_RISK_SCORE,
};

#[test]
fn test_require_non_zero_amount() {
    assert!(require_non_zero_amount(0).is_err());
    assert!(require_non_zero_amount(-1).is_err());
    assert!(require_non_zero_amount(1).is_ok());
}

#[test]
fn test_require_non_negative_amount() {
    assert!(require_non_negative_amount(-1).is_err());
    assert!(require_non_negative_amount(0).is_ok());
    assert!(require_non_negative_amount(1).is_ok());
}

#[test]
fn test_bps_of_safe() {
    assert_eq!(bps_of(10_000, 100).unwrap(), 100);
    assert_eq!(bps_of(1_000_000, 50).unwrap(), 5_000);
    assert!(bps_of(i128::MAX, 10_000).is_err());
}

#[test]
fn test_safe_add() {
    assert_eq!(safe_add(100, 200).unwrap(), 300);
    assert!(safe_add(i128::MAX, 1).is_err());
}

#[test]
fn test_safe_sub() {
    assert_eq!(safe_sub(300, 100).unwrap(), 200);
    assert!(safe_sub(100, 200).is_err());
}

#[test]
fn test_safe_mul() {
    assert_eq!(safe_mul(100, 200).unwrap(), 20_000);
    assert!(safe_mul(i128::MAX, 2).is_err());
}

#[test]
fn test_safe_div() {
    assert_eq!(safe_div(200, 4).unwrap(), 50);
    assert!(safe_div(100, 0).is_err());
}

#[test]
fn test_require_valid_bps_range() {
    assert!(require_valid_bps_range(50, 0, 1000).is_ok());
    assert!(require_valid_bps_range(0, 0, 1000).is_ok());
    assert!(require_valid_bps_range(1000, 0, 1000).is_ok());
    assert!(require_valid_bps_range(1001, 0, 1000).is_err());
}

#[test]
fn each_check_names_its_error() {
    assert_eq!(require_non_zero_amount(0), Err(KoraError::InvalidAmount));
    assert_eq!(require_non_negative_amount(-1), Err(KoraError::InvalidAmount));
    assert_eq!(require_future_timestamp(100, 100), Err(KoraError::InvalidDueDate));
    assert_eq!(require_future_timestamp(100, 101), Ok(()));
    assert_eq!(require_valid_risk_score(MAX_RISK_SCORE), Ok(()));
    assert_eq!(require_valid_risk_score(101), Err(KoraError::InvalidRiskScore));
    assert_eq!(require_non_empty_string(""), Err(KoraError::EmptyString));
    assert_eq!(require_non_empty_string("a"), Ok(()));
    assert_eq!(require_non_empty_bytes(&[]), Err(KoraError::EmptyBytes));
    assert_eq!(require_non_empty_bytes(&[0]), Ok(()));
    assert_eq!(require_valid_fee_bps(BPS_SCALE), Ok(()));
    assert_eq!(require_valid_fee_bps(10_001), Err(KoraError::InvalidFeeRate));
    assert_eq!(require_valid_bps_range(9, 10, 20), Err(KoraError::InvalidFeeRate));
    assert_eq!(require_amount_within_bounds(0, 5), Ok(()));
    assert_eq!(require_amount_within_bounds(5, 5), Ok(()));
    assert_eq!(require_amount_within_bounds(6, 5), Err(KoraError::InvalidAmount));
    assert_eq!(require_amount_within_bounds(-1, 5), Err(KoraError::InvalidAmount));
}

#[test]
fn shares_are_rounded_toward_zero() {
    assert_eq!(bps_of(9_999, 1), Ok(0));
    assert_eq!(bps_of(10_001, 1), Ok(1));
    assert_eq!(bps_of(-9_999, 1), Ok(0));
    assert_eq!(bps_of(-10_001, 1), Ok(-1));
    assert_eq!(bps_of(12_345, 10_000), Ok(12_345));
    assert_eq!(bps_of(12_345, 0), Ok(0));
    assert_eq!(bps_of(i128::MAX, 2), Err(KoraError::ArithmeticOverflow));
    assert_eq!(bps_of(i128::MIN, 1), Ok(i128::MIN / 10_000));
}

#[test]
fn arithmetic_is_exact_or_refused() {
    assert_eq!(safe_add(i128::MAX, 0), Ok(i128::MAX));
    assert_eq!(safe_add(i128::MIN, -1), Err(KoraError::ArithmeticOverflow));
    assert_eq!(safe_sub(5, 5), Ok(0));
    assert_eq!(safe_sub(5, 6), Err(KoraError::ArithmeticUnderflow));
    assert_eq!(safe_sub(i128::MAX, -1), Err(KoraError::ArithmeticUnderflow));
    assert_eq!(safe_sub(-5, -6), Ok(1));
    assert_eq!(safe_mul(-3, 4), Ok(-12));
    assert_eq!(safe_mul(i128::MIN, -1), Err(KoraError::ArithmeticOverflow));
    assert_eq!(safe_div(-7, 2), Ok(-3));
    assert_eq!(safe_div(7, -2), Ok(-3));
    assert_eq!(safe_div(-7, -2), Ok(3));
    assert_eq!(safe_div(1, 0), Err(KoraError::ArithmeticOverflow));
    assert_eq!(safe_div(i128::MIN, -1), Err(KoraError::ArithmeticOverflow));
}

#[test]
fn errors_have_their_numbers() {
    assert_eq!(KoraError::Unauthorized.code(), 1);
    assert_eq!(KoraError::RoleNotAssigned.code(), 7);
    assert_eq!(KoraError::InvoiceNotFound.code(), 10);
    assert_eq!(KoraError::InvalidRiskScore.code(), 16);
    assert_eq!(KoraError::ListingNotFound.code(), 20);
    assert_eq!(KoraError::AlreadyFullyFunded.code(), 26);
    assert_eq!(KoraError::PoolNotFound.code(), 30);
    assert_eq!(KoraError::InvalidFeeRate.code(), 40);
    assert_eq!(KoraError::SMENotRegistered.code(), 50);
    assert_eq!(KoraError::ArithmeticOverflow.code(), 90);
    assert_eq!(KoraError::NotInitialized.code(), 94);
}
