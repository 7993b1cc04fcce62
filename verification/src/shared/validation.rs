use vstd::prelude::*;

use crate::shared::errors::KoraError;

verus! {

/// Basis points in one whole.
pub const BPS_SCALE: u32 = 10_000;

/// The highest risk score.
pub const MAX_RISK_SCORE: u32 = 100;

/// `Ok` where `ok` holds, the error otherwise.
pub open spec fn check(ok: bool, error: KoraError) -> Result<(), KoraError> {
    if ok {
        Ok(())
    } else {
        Err(error)
    }
}

/// Whether a number can be held in an `i128`.
pub open spec fn fits(n: int) -> bool {
    i128::MIN <= n <= i128::MAX
}

/// The quotient rounded toward zero.
pub open spec fn quotient(a: int, b: int) -> int {
    if a >= 0 && b > 0 {
        a / b
    } else if a >= 0 {
        -(a / -b)
    } else if b > 0 {
        -(-a / b)
    } else {
        -a / -b
    }
}

/// `bps` ten-thousandths of `amount`, rounded toward zero.
pub open spec fn share_of(amount: int, bps: int) -> int {
    if amount * bps >= 0 {
        amount * bps / 10_000
    } else {
        -(-(amount * bps) / 10_000)
    }
}

pub fn require_non_zero_amount(amount: i128) -> (r: Result<(), KoraError>)
    ensures
        r == check(amount > 0, KoraError::InvalidAmount),
{
    if amount <= 0 {
        return Err(KoraError::InvalidAmount);
    }
    Ok(())
}

/// Allows zero but rejects negative values.
pub fn require_non_negative_amount(amount: i128) -> (r: Result<(), KoraError>)
    ensures
        r == check(amount >= 0, KoraError::InvalidAmount),
{
    if amount < 0 {
        return Err(KoraError::InvalidAmount);
    }
    Ok(())
}

/// `now` is the closing time of the current ledger.
pub fn require_future_timestamp(now: u64, ts: u64) -> (r: Result<(), KoraError>)
    ensures
        r == check(ts > now, KoraError::InvalidDueDate),
{
    if ts <= now {
        return Err(KoraError::InvalidDueDate);
    }
    Ok(())
}

pub fn require_valid_risk_score(score: u32) -> (r: Result<(), KoraError>)
    ensures
        r == check(score <= MAX_RISK_SCORE, KoraError::InvalidRiskScore),
{
    if score > MAX_RISK_SCORE {
        return Err(KoraError::InvalidRiskScore);
    }
    Ok(())
}

pub fn require_non_empty_string(s: &str) -> (r: Result<(), KoraError>)
    ensures
        r == check(s@.len() > 0, KoraError::EmptyString),
{
    if s.is_empty() {
        return Err(KoraError::EmptyString);
    }
    Ok(())
}

pub fn require_non_empty_bytes(b: &[u8]) -> (r: Result<(), KoraError>)
    ensures
        r == check(b@.len() > 0, KoraError::EmptyBytes),
{
    if b.len() == 0 {
        return Err(KoraError::EmptyBytes);
    }
    Ok(())
}

pub fn require_valid_fee_bps(bps: u32) -> (r: Result<(), KoraError>)
    ensures
        r == check(bps <= BPS_SCALE, KoraError::InvalidFeeRate),
{
    if bps > BPS_SCALE {
        return Err(KoraError::InvalidFeeRate);
    }
    Ok(())
}

/// Validates that `bps` is within `min_bps` and `max_bps`, both included.
pub fn require_valid_bps_range(bps: u32, min_bps: u32, max_bps: u32) -> (r: Result<
    (),
    KoraError,
>)
    ensures
        r == check(min_bps <= bps <= max_bps, KoraError::InvalidFeeRate),
{
    if bps < min_bps || bps > max_bps {
        return Err(KoraError::InvalidFeeRate);
    }
    Ok(())
}

pub fn require_amount_within_bounds(amount: i128, max: i128) -> (r: Result<(), KoraError>)
    ensures
        r == check(0 <= amount <= max, KoraError::InvalidAmount),
{
    if amount > max || amount < 0 {
        return Err(KoraError::InvalidAmount);
    }
    Ok(())
}

/// Safe basis-point multiplication: `amount * bps / 10_000`, rounded toward
/// zero. Fails where the product does not fit.
pub fn bps_of(amount: i128, bps: u32) -> (r: Result<i128, KoraError>)
    ensures
        r == if fits(amount * bps) {
            Ok(share_of(amount as int, bps as int) as i128)
        } else {
            Err(KoraError::ArithmeticOverflow)
        },
        r matches Ok(share) ==> share == share_of(amount as int, bps as int),
{
    match amount.checked_mul(bps as i128) {
        Some(product) => {
            match product.checked_div(BPS_SCALE as i128) {
                Some(share) => Ok(share),
                None => Err(KoraError::ArithmeticOverflow),
            }
        },
        None => Err(KoraError::ArithmeticOverflow),
    }
}

/// Safe addition with overflow check.
pub fn safe_add(a: i128, b: i128) -> (r: Result<i128, KoraError>)
    ensures
        fits(a + b) ==> r == Ok::<i128, KoraError>((a + b) as i128),
        !fits(a + b) ==> r == Err::<i128, KoraError>(KoraError::ArithmeticOverflow),
{
    a.checked_add(b).ok_or(KoraError::ArithmeticOverflow)
}

/// Safe subtraction with underflow check: the difference of two amounts is an
/// amount, so it never falls below zero.
pub fn safe_sub(a: i128, b: i128) -> (r: Result<i128, KoraError>)
    ensures
        0 <= a - b && fits(a - b) ==> r == Ok::<i128, KoraError>((a - b) as i128),
        !(0 <= a - b && fits(a - b)) ==> r == Err::<i128, KoraError>(
            KoraError::ArithmeticUnderflow,
        ),
{
    if a < b {
        return Err(KoraError::ArithmeticUnderflow);
    }
    a.checked_sub(b).ok_or(KoraError::ArithmeticUnderflow)
}

/// Safe multiplication with overflow check.
pub fn safe_mul(a: i128, b: i128) -> (r: Result<i128, KoraError>)
    ensures
        fits(a * b) ==> r == Ok::<i128, KoraError>((a * b) as i128),
        !fits(a * b) ==> r == Err::<i128, KoraError>(KoraError::ArithmeticOverflow),
{
    a.checked_mul(b).ok_or(KoraError::ArithmeticOverflow)
}

/// Safe division, rounded toward zero. Returns an error on divide-by-zero or
/// overflow.
pub fn safe_div(a: i128, b: i128) -> (r: Result<i128, KoraError>)
    ensures
        b != 0 && fits(quotient(a as int, b as int)) ==> r == Ok::<i128, KoraError>(
            quotient(a as int, b as int) as i128,
        ),
        b == 0 || !fits(quotient(a as int, b as int)) ==> r == Err::<i128, KoraError>(
            KoraError::ArithmeticOverflow,
        ),
{
    if b == 0 {
        return Err(KoraError::ArithmeticOverflow);
    }
    a.checked_div(b).ok_or(KoraError::ArithmeticOverflow)
}

} // verus!
