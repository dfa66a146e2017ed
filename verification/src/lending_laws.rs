//! Laws of the interest, fee and liquidation-threshold arithmetic.
use vstd::prelude::*;

use crate::lending_math::{
    raw_liquidation_threshold, reputation_bonus, spec_bps_fee, spec_interest, spec_liquidation_threshold,
    spec_validated_fee,
};

verus! {

/// Interest never overflows for loans within the protocol's limits:
/// principal up to 100 000 XLM (10^11 stroops), rate up to 1500 bps and a
/// term of up to 365 days; such interest is at most 1.5 × 10^10 stroops.
pub proof fn interest_defined_within_protocol_limits(principal: i128, rate_bps: u32, days: u32)
    requires
        0 <= principal <= 100_000_000_000,
        rate_bps <= 1500,
        days <= 365,
    ensures
        spec_interest(principal as int, rate_bps as int, days as int) is Some,
        0 <= spec_interest(principal as int, rate_bps as int, days as int)->0 <= 15_000_000_000,
{
    let p = principal as int;
    let r = rate_bps as int;
    let d = days as int;
    assert(0 <= p * r <= 150_000_000_000_000) by (nonlinear_arith)
        requires
            0 <= p <= 100_000_000_000,
            0 <= r <= 1500,
    ;
    assert(0 <= p * r * d <= 54_750_000_000_000_000) by (nonlinear_arith)
        requires
            0 <= p * r <= 150_000_000_000_000,
            0 <= d <= 365,
    ;
    vstd::arithmetic::div_mod::lemma_div_is_ordered(p * r * d, 54_750_000_000_000_000, 3_650_000);
}

/// Interest on a non-negative principal is non-negative, and it is positive
/// exactly when `principal × rate_bps × days` reaches one full
/// `10_000 × 365`; smaller products round down to zero.
pub proof fn interest_sign(principal: i128, rate_bps: u32, days: u32)
    requires
        principal >= 0,
    ensures
        spec_interest(principal as int, rate_bps as int, days as int) matches Some(i) ==> {
            &&& i >= 0
            &&& (i > 0 <==> principal * rate_bps * days >= 3_650_000)
        },
{
    let p = principal as int;
    let r = rate_bps as int;
    let d = days as int;
    assert(p * r * d >= 0) by (nonlinear_arith)
        requires
            p >= 0,
            r >= 0,
            d >= 0,
    ;
}

/// Interest does not decrease when the principal grows (for non-negative
/// principals): if the larger loan's interest is defined, so is the smaller
/// one's, and it is no larger.
pub proof fn interest_monotonic_in_principal(p1: i128, p2: i128, rate_bps: u32, days: u32)
    requires
        0 <= p1 <= p2,
        spec_interest(p2 as int, rate_bps as int, days as int) is Some,
    ensures
        spec_interest(p1 as int, rate_bps as int, days as int) is Some,
        spec_interest(p1 as int, rate_bps as int, days as int)->0 <= spec_interest(
            p2 as int,
            rate_bps as int,
            days as int,
        )->0,
{
    let r = rate_bps as int;
    let d = days as int;
    assert(0 <= p1 * r <= p2 * r && 0 <= p1 * r * d <= p2 * r * d) by (nonlinear_arith)
        requires
            0 <= p1 <= p2,
            r >= 0,
            d >= 0,
    ;
    vstd::arithmetic::div_mod::lemma_div_is_ordered(p1 * r * d, p2 * r * d, 3_650_000);
}

/// Interest does not decrease when the rate grows, for a non-negative
/// principal.
pub proof fn interest_monotonic_in_rate(principal: i128, r1: u32, r2: u32, days: u32)
    requires
        principal >= 0,
        r1 <= r2,
        spec_interest(principal as int, r2 as int, days as int) is Some,
    ensures
        spec_interest(principal as int, r1 as int, days as int) is Some,
        spec_interest(principal as int, r1 as int, days as int)->0 <= spec_interest(
            principal as int,
            r2 as int,
            days as int,
        )->0,
{
    let p = principal as int;
    let d = days as int;
    assert(0 <= p * r1 <= p * r2 && 0 <= p * r1 * d <= p * r2 * d) by (nonlinear_arith)
        requires
            p >= 0,
            0 <= r1 <= r2,
            d >= 0,
    ;
    vstd::arithmetic::div_mod::lemma_div_is_ordered(p * r1 * d, p * r2 * d, 3_650_000);
}

/// Interest does not decrease when the term grows, for a non-negative
/// principal.
pub proof fn interest_monotonic_in_days(principal: i128, rate_bps: u32, d1: u32, d2: u32)
    requires
        principal >= 0,
        d1 <= d2,
        spec_interest(principal as int, rate_bps as int, d2 as int) is Some,
    ensures
        spec_interest(principal as int, rate_bps as int, d1 as int) is Some,
        spec_interest(principal as int, rate_bps as int, d1 as int)->0 <= spec_interest(
            principal as int,
            rate_bps as int,
            d2 as int,
        )->0,
{
    let p = principal as int;
    let r = rate_bps as int;
    assert(0 <= p * r * d1 <= p * r * d2) by (nonlinear_arith)
        requires
            p >= 0,
            r >= 0,
            0 <= d1 <= d2,
    ;
    vstd::arithmetic::div_mod::lemma_div_is_ordered(p * r * d1, p * r * d2, 3_650_000);
}

/// One day at one basis point yields exactly `floor(principal / 3_650_000)`
/// for a non-negative principal: the smallest possible positive interest.
pub proof fn interest_minimum_unit(principal: i128)
    requires
        principal >= 0,
    ensures
        spec_interest(principal as int, 1, 1) == Some(principal as int / 3_650_000),
{
}

/// A full year of interest is `principal × rate_bps / 10_000`, rounded
/// down, for a non-negative principal whose yearly product fits in `i128`.
pub proof fn annual_interest_identity(principal: i128, rate_bps: u32)
    requires
        principal >= 0,
        spec_interest(principal as int, rate_bps as int, 365) is Some,
    ensures
        spec_interest(principal as int, rate_bps as int, 365) == Some(
            principal * rate_bps / 10_000,
        ),
{
    let x = principal * rate_bps;
    assert(x >= 0) by (nonlinear_arith)
        requires
            principal >= 0,
            rate_bps >= 0,
            x == principal * rate_bps,
    ;
    vstd::arithmetic::div_mod::lemma_div_by_multiple(x, 365);
    vstd::arithmetic::div_mod::lemma_div_denominator(x * 365, 365, 10_000);
    assert(365 * 10_000 == 3_650_000int);
}

/// The liquidation threshold always lies in `[5000, 9000]` basis points.
pub proof fn liquidation_threshold_bounds(score: u32, volatility_bps: u32)
    ensures
        5000 <= spec_liquidation_threshold(score as int, volatility_bps as int) <= 9000,
{
}

/// A better reputation never lowers the liquidation threshold.
pub proof fn liquidation_threshold_monotonic_in_score(s1: u32, s2: u32, volatility_bps: u32)
    requires
        s1 <= s2,
    ensures
        spec_liquidation_threshold(s1 as int, volatility_bps as int) <= spec_liquidation_threshold(
            s2 as int,
            volatility_bps as int,
        ),
{
    vstd::arithmetic::div_mod::lemma_div_is_ordered(s1 * 15, s2 * 15, 10);
}

/// The reputation bonus never exceeds 1500 basis points, so no score lifts
/// the threshold above `7500 + 1500` before the penalty.
pub proof fn reputation_bonus_capped(score: u32)
    ensures
        0 <= reputation_bonus(score as int) <= 1500,
        raw_liquidation_threshold(score as int, 0) <= 9000,
{
}

/// The liquidation threshold, written out: `7500`, plus `score × 15 / 10`
/// capped at 1500, minus `volatility / 2` (never below zero), then clamped
/// to `[5000, 9000]`.
pub proof fn liquidation_threshold_formula(score: u32, volatility_bps: u32)
    ensures
        spec_liquidation_threshold(score as int, volatility_bps as int) == ({
            let bonus: int = if score * 15 / 10 > 1500 {
                1500
            } else {
                score * 15 / 10
            };
            let penalty: int = volatility_bps as int / 2;
            let raw: int = if 7500 + bonus >= penalty {
                7500 + bonus - penalty
            } else {
                0
            };
            if raw < 5000 {
                5000int
            } else if raw > 9000 {
                9000int
            } else {
                raw
            }
        }),
{
}

/// Away from the clamps, the volatility penalty is exactly half the
/// volatility: two more basis points of volatility lower the threshold by
/// exactly one.
pub proof fn liquidation_threshold_tracks_half_volatility(score: u32, volatility_bps: u32)
    requires
        volatility_bps <= u32::MAX - 2,
        spec_liquidation_threshold(score as int, volatility_bps + 2) > 5000,
        spec_liquidation_threshold(score as int, volatility_bps as int) < 9000,
    ensures
        spec_liquidation_threshold(score as int, volatility_bps + 2) == spec_liquidation_threshold(
            score as int,
            volatility_bps as int,
        ) - 1,
{
    assert((volatility_bps + 2) / 2 == volatility_bps / 2 + 1);
}

/// A fee of at most 100% never exceeds a non-negative base and is never
/// negative. This covers the platform fee (on interest), the flash-loan fee
/// (on the borrowed amount) and the rate-switch fee (on the debt).
pub proof fn fee_within_base(base: i128, fee_bps: u32)
    requires
        base >= 0,
        fee_bps <= 10_000,
    ensures
        spec_bps_fee(base as int, fee_bps as int) matches Some(fee) ==> 0 <= fee <= base,
{
    let b = base as int;
    let f = fee_bps as int;
    assert(0 <= b * f <= b * 10_000) by (nonlinear_arith)
        requires
            b >= 0,
            0 <= f <= 10_000,
    ;
    vstd::arithmetic::div_mod::lemma_div_is_ordered(b * f, b * 10_000, 10_000);
    vstd::arithmetic::div_mod::lemma_div_by_multiple(b, 10_000);
}

/// A fee is defined on every base up to 100 000 XLM (10^11 stroops) at any
/// rate up to 100%, and then equals `base × fee_bps / 10_000` rounded down.
pub proof fn fee_formula_within_protocol_limits(base: i128, fee_bps: u32)
    requires
        0 <= base <= 100_000_000_000,
        fee_bps <= 10_000,
    ensures
        spec_bps_fee(base as int, fee_bps as int) == Some(base * fee_bps / 10_000),
{
    assert(0 <= base * fee_bps <= 1_000_000_000_000_000) by (nonlinear_arith)
        requires
            0 <= base <= 100_000_000_000,
            0 <= fee_bps <= 10_000,
    ;
}

/// A fee does not decrease when its base grows (non-negative bases).
pub proof fn fee_monotonic_in_base(b1: i128, b2: i128, fee_bps: u32)
    requires
        0 <= b1 <= b2,
        spec_bps_fee(b2 as int, fee_bps as int) is Some,
    ensures
        spec_bps_fee(b1 as int, fee_bps as int) is Some,
        spec_bps_fee(b1 as int, fee_bps as int)->0 <= spec_bps_fee(b2 as int, fee_bps as int)->0,
{
    assert(0 <= b1 * fee_bps <= b2 * fee_bps) by (nonlinear_arith)
        requires
            0 <= b1 <= b2,
            fee_bps >= 0,
    ;
    vstd::arithmetic::div_mod::lemma_div_is_ordered(b1 * fee_bps, b2 * fee_bps, 10_000);
}

/// A fee does not decrease when its rate grows (non-negative base).
pub proof fn fee_monotonic_in_bps(base: i128, bps1: u32, bps2: u32)
    requires
        base >= 0,
        bps1 <= bps2,
        spec_bps_fee(base as int, bps2 as int) is Some,
    ensures
        spec_bps_fee(base as int, bps1 as int) is Some,
        spec_bps_fee(base as int, bps1 as int)->0 <= spec_bps_fee(base as int, bps2 as int)->0,
{
    assert(0 <= base * bps1 <= base * bps2) by (nonlinear_arith)
        requires
            base >= 0,
            0 <= bps1 <= bps2,
    ;
    vstd::arithmetic::div_mod::lemma_div_is_ordered(base * bps1, base * bps2, 10_000);
}

/// The rate-switch fee (50 bps) on a non-negative debt is exactly
/// `remaining_due / 200`, rounded down: 0.5% of the debt.
pub proof fn rate_switch_fee_is_half_percent(remaining_due: i128)
    requires
        remaining_due >= 0,
    ensures
        spec_bps_fee(remaining_due as int, 50) matches Some(fee) ==> fee == remaining_due / 200,
{
    let x = remaining_due as int;
    vstd::arithmetic::div_mod::lemma_div_denominator(x * 50, 50, 200);
    vstd::arithmetic::div_mod::lemma_div_by_multiple(x, 50);
    assert(50 * 200 == 10_000int);
}

/// A validated fee never exceeds its cap, and a fee is rejected only when
/// it exceeds the cap. This holds for the platform fee (cap 1000 bps) and
/// the flash-loan fee (cap 500 bps).
pub proof fn validated_fee_within_cap(new_fee_bps: u32, max_bps: u32)
    ensures
        spec_validated_fee(new_fee_bps, max_bps) matches Some(fee) ==> fee == new_fee_bps && fee
            <= max_bps,
        spec_validated_fee(new_fee_bps, max_bps) is None ==> new_fee_bps > max_bps,
{
}

} // verus!
