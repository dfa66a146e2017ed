//! Interest, fee and liquidation-threshold arithmetic of the lending pool.
use vstd::prelude::*;

use crate::arith::{fits_i128, opt_int, trunc_div};

verus! {

/// Denominator of the interest formula: basis points times days per year.
pub const INTEREST_DENOMINATOR: i128 = 3_650_000;

/// One hundred percent, in basis points.
pub const BPS_DENOMINATOR: i128 = 10_000;

/// Platform fee charged on interest unless governance changes it (1%).
pub const DEFAULT_PLATFORM_FEE_BPS: u32 = 100;

/// Largest platform fee governance may set (10%).
pub const MAX_PLATFORM_FEE_BPS: u32 = 1000;

/// Flash-loan fee charged unless governance changes it (0.09%).
pub const DEFAULT_FLASH_LOAN_FEE_BPS: u32 = 9;

/// Largest flash-loan fee governance may set (5%).
pub const MAX_FLASH_LOAN_FEE_BPS: u32 = 500;

/// Fee on the outstanding debt for switching a loan's rate model (0.5%).
pub const RATE_SWITCH_FEE_BPS: u32 = 50;

/// Liquidation threshold before reputation and volatility adjustments.
pub const BASE_LIQUIDATION_THRESHOLD_BPS: u32 = 7500;

/// Lowest liquidation threshold the pool ever applies.
pub const MIN_LIQUIDATION_THRESHOLD_BPS: u32 = 5000;

/// Highest liquidation threshold the pool ever applies.
pub const MAX_LIQUIDATION_THRESHOLD_BPS: u32 = 9000;

/// `principal × rate_bps × days / (10_000 × 365)`, rounded toward zero,
/// or `None` when a product leaves the `i128` range.
pub open spec fn spec_interest(principal: int, rate_bps: int, days: int) -> Option<int> {
    if !fits_i128(principal * rate_bps) || !fits_i128(principal * rate_bps * days) {
        None
    } else {
        Some(trunc_div(principal * rate_bps * days, 3_650_000))
    }
}

/// `amount × fee_bps / 10_000`, rounded toward zero, or `None` when the
/// product leaves the `i128` range.
pub open spec fn spec_bps_fee(amount: int, fee_bps: int) -> Option<int> {
    if !fits_i128(amount * fee_bps) {
        None
    } else {
        Some(trunc_div(amount * fee_bps, 10_000))
    }
}

/// A proposed fee in basis points, accepted when it does not exceed `max_bps`.
pub open spec fn spec_validated_fee(new_fee_bps: u32, max_bps: u32) -> Option<u32> {
    if new_fee_bps <= max_bps {
        Some(new_fee_bps)
    } else {
        None
    }
}

/// `x` limited to the interval `[lo, hi]`.
pub open spec fn clamp_int(x: int, lo: int, hi: int) -> int {
    if x < lo {
        lo
    } else if x > hi {
        hi
    } else {
        x
    }
}

/// Largest reputation bonus, in basis points.
pub const MAX_REPUTATION_BONUS_BPS: u32 = 1500;

/// Reputation bonus: `score × 1.5` basis points (rounded down), at most
/// `MAX_REPUTATION_BONUS_BPS`.
pub open spec fn reputation_bonus(score: int) -> int {
    let bonus = score * 15 / 10;
    if bonus > 1500 {
        1500
    } else {
        bonus
    }
}

/// The liquidation threshold before clamping: `7500 + bonus` minus
/// `volatility / 2`, floored at zero.
pub open spec fn raw_liquidation_threshold(score: int, volatility_bps: int) -> int {
    let up = 7500 + reputation_bonus(score);
    let down = volatility_bps / 2;
    if up >= down {
        up - down
    } else {
        0
    }
}

/// The liquidation threshold: the raw value clamped to `[5000, 9000]`.
pub open spec fn spec_liquidation_threshold(score: int, volatility_bps: int) -> int {
    clamp_int(raw_liquidation_threshold(score, volatility_bps), 5000, 9000)
}

/// Simple interest on `principal` at `rate_bps` basis points per year over
/// `days` days: `principal × rate_bps × days / (10_000 × 365)`, rounded toward
/// zero. Returns `None` when an intermediate product overflows `i128`.
pub fn calculate_interest(principal: i128, rate_bps: u32, days: u32) -> (result: Option<i128>)
    ensures
        opt_int(result) == spec_interest(principal as int, rate_bps as int, days as int),
{
    let pr = match principal.checked_mul(rate_bps as i128) {
        Some(v) => v,
        None => return None,
    };
    let numerator = match pr.checked_mul(days as i128) {
        Some(v) => v,
        None => return None,
    };
    numerator.checked_div(INTEREST_DENOMINATOR)
}

/// `amount × fee_bps / 10_000`, rounded toward zero; `None` on overflow.
fn bps_fee(amount: i128, fee_bps: u32) -> (result: Option<i128>)
    ensures
        opt_int(result) == spec_bps_fee(amount as int, fee_bps as int),
{
    match amount.checked_mul(fee_bps as i128) {
        Some(product) => product.checked_div(BPS_DENOMINATOR),
        None => None,
    }
}

/// Platform fee taken from a loan's interest: `interest × fee_bps / 10_000`.
/// Returns `None` when the product overflows `i128`.
pub fn calculate_platform_fee(interest: i128, fee_bps: u32) -> (result: Option<i128>)
    ensures
        opt_int(result) == spec_bps_fee(interest as int, fee_bps as int),
{
    bps_fee(interest, fee_bps)
}

/// Fee owed on a flash loan: `amount × fee_bps / 10_000`.
/// Returns `None` when the product overflows `i128`.
pub fn calculate_flash_loan_fee(amount: i128, fee_bps: u32) -> (result: Option<i128>)
    ensures
        opt_int(result) == spec_bps_fee(amount as int, fee_bps as int),
{
    bps_fee(amount, fee_bps)
}

/// Fee for switching a loan's rate model: `remaining_due × 50 / 10_000`.
/// Returns `None` when the product overflows `i128`.
pub fn calculate_rate_switch_fee(remaining_due: i128) -> (result: Option<i128>)
    ensures
        opt_int(result) == spec_bps_fee(remaining_due as int, RATE_SWITCH_FEE_BPS as int),
{
    bps_fee(remaining_due, RATE_SWITCH_FEE_BPS)
}

/// Accepts a new platform fee when it is at most `MAX_PLATFORM_FEE_BPS`.
pub fn validate_platform_fee(new_fee_bps: u32) -> (result: Option<u32>)
    ensures
        result == spec_validated_fee(new_fee_bps, MAX_PLATFORM_FEE_BPS),
{
    if new_fee_bps > MAX_PLATFORM_FEE_BPS {
        return None;
    }
    Some(new_fee_bps)
}

/// Accepts a new flash-loan fee when it is at most `MAX_FLASH_LOAN_FEE_BPS`.
pub fn validate_flash_loan_fee(new_fee_bps: u32) -> (result: Option<u32>)
    ensures
        result == spec_validated_fee(new_fee_bps, MAX_FLASH_LOAN_FEE_BPS),
{
    if new_fee_bps > MAX_FLASH_LOAN_FEE_BPS {
        return None;
    }
    Some(new_fee_bps)
}

/// Dynamic liquidation threshold in basis points: the base 7500, plus a
/// reputation bonus of `score × 1.5` (at most 1500), minus a volatility
/// penalty of `volatility / 2` (floored at zero), clamped to `[5000, 9000]`.
pub fn calculate_liquidation_threshold(
    borrower_reputation_score: u32,
    asset_volatility_bps: u32,
) -> (result: u32)
    ensures
        result as int == spec_liquidation_threshold(
            borrower_reputation_score as int,
            asset_volatility_bps as int,
        ),
{
    let scaled: u64 = (borrower_reputation_score as u64) * 15 / 10;
    let reputation_bonus: u32 = if scaled > MAX_REPUTATION_BONUS_BPS as u64 {
        MAX_REPUTATION_BONUS_BPS
    } else {
        scaled as u32
    };
    let volatility_penalty: u32 = asset_volatility_bps / 2;
    let threshold: u32 = (BASE_LIQUIDATION_THRESHOLD_BPS + reputation_bonus).saturating_sub(
        volatility_penalty,
    );
    if threshold < MIN_LIQUIDATION_THRESHOLD_BPS {
        MIN_LIQUIDATION_THRESHOLD_BPS
    } else if threshold > MAX_LIQUIDATION_THRESHOLD_BPS {
        MAX_LIQUIDATION_THRESHOLD_BPS
    } else {
        threshold
    }
}

} // verus!
