//! Pool-balance accounting of flash loans.
use vstd::prelude::*;

use crate::arith::fits_i128;
use crate::lending_math::{calculate_flash_loan_fee, spec_bps_fee};

verus! {

/// Outcome of a repaid flash loan of `amount` from a pool holding
/// `pool_balance`: the pool's balance afterwards and the fee earned.
/// `None` when the amount is not positive, the pool cannot cover it, or the
/// fee or the new balance overflows `i128`.
pub open spec fn spec_flash_loan_success(pool_balance: int, amount: int, fee_bps: int) -> Option<
    (int, int),
> {
    if amount <= 0 || pool_balance < amount {
        None
    } else {
        match spec_bps_fee(amount, fee_bps) {
            None => None,
            Some(fee) => if fits_i128(pool_balance + fee) {
                Some((pool_balance + fee, fee))
            } else {
                None
            },
        }
    }
}

/// A pair of `i128`s read as a pair of mathematical integers.
pub open spec fn pair_int(o: Option<(i128, i128)>) -> Option<(int, int)> {
    match o {
        Some((a, b)) => Some((a as int, b as int)),
        None => None,
    }
}

/// A flash loan whose receiver repays principal plus fee: returns the pool
/// balance afterwards (`pool_balance + fee`) and the fee, or `None` when the
/// amount is not positive, exceeds the pool, or the arithmetic overflows.
pub fn simulate_flash_loan_success(pool_balance: i128, amount: i128, fee_bps: u32) -> (result:
    Option<(i128, i128)>)
    ensures
        pair_int(result) == spec_flash_loan_success(
            pool_balance as int,
            amount as int,
            fee_bps as int,
        ),
{
    if amount <= 0 {
        return None;
    }
    if pool_balance < amount {
        return None;
    }
    let fee = match calculate_flash_loan_fee(amount, fee_bps) {
        Some(f) => f,
        None => return None,
    };
    let required_after = match pool_balance.checked_add(fee) {
        Some(v) => v,
        None => return None,
    };
    let balance_after = required_after;
    Some((balance_after, fee))
}

/// A flash loan whose receiver does not repay: the whole transaction is
/// rolled back, so the pool keeps `pool_balance`. `None` when the amount is
/// not positive.
pub fn simulate_flash_loan_failure(pool_balance: i128, amount: i128) -> (result: Option<i128>)
    ensures
        result == (if amount <= 0 { None } else { Some(pool_balance) }),
{
    if amount <= 0 {
        return None;
    }
    Some(pool_balance)
}

/// A repaid flash loan grows the pool by exactly its (non-negative) fee,
/// which never exceeds the amount for a rate of at most 100%; it succeeds for
/// every positive amount the pool covers when pool and fee stay within the
/// protocol limits (10^11 stroops, fee at most 500 bps).
pub proof fn repaid_flash_loan_adds_fee_to_pool(pool_balance: i128, amount: i128, fee_bps: u32)
    ensures
        spec_flash_loan_success(pool_balance as int, amount as int, fee_bps as int) matches Some(
            (after, fee),
        ) ==> after == pool_balance + fee && fee >= 0 && (fee_bps <= 10_000 ==> fee <= amount),
        0 < amount <= pool_balance <= 100_000_000_000 && fee_bps <= 500 ==> spec_flash_loan_success(
            pool_balance as int,
            amount as int,
            fee_bps as int,
        ) is Some,
{
    if amount > 0 && fee_bps <= 10_000 {
        crate::lending_laws::fee_within_base(amount, fee_bps);
    }
    if 0 < amount <= pool_balance <= 100_000_000_000 && fee_bps <= 500 {
        crate::lending_laws::fee_formula_within_protocol_limits(amount, fee_bps);
        crate::lending_laws::fee_within_base(amount, fee_bps);
    }
    if amount > 0 {
        assert(amount * fee_bps >= 0) by (nonlinear_arith)
            requires
                amount > 0,
                fee_bps >= 0,
        ;
    }
}

/// A flash loan is rejected whenever its amount is not positive or exceeds
/// the pool's balance.
pub proof fn invalid_flash_loan_rejected(pool_balance: i128, amount: i128, fee_bps: u32)
    requires
        amount <= 0 || amount > pool_balance,
    ensures
        spec_flash_loan_success(pool_balance as int, amount as int, fee_bps as int) is None,
{
}

} // verus!
