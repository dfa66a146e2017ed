//! Debt accounting of a single loan: creation, repayment and the
//! rate-switch fee.
use vstd::prelude::*;

use crate::arith::fits_i128;
use crate::lending_math::{calculate_interest, calculate_platform_fee, spec_bps_fee, spec_interest};
use crate::loan_lifecycle::LoanStatus;

verus! {

/// The amounts the pool tracks for one loan.
#[derive(Debug, Clone, Copy, PartialEq, Eq, Structural)]
pub struct LoanRecord {
    /// Principal lent, in stroops.
    pub amount: i128,
    /// Principal plus interest (plus any rate-switch fees).
    pub total_due: i128,
    /// What the borrower still owes.
    pub remaining_due: i128,
    pub status: LoanStatus,
    /// Platform fee taken from the interest.
    pub platform_fee: i128,
}

/// The loan created for `principal` at `rate_bps` over `days` with a
/// platform fee of `fee_bps`, together with that fee; `None` when the
/// interest, the fee or the total due overflows `i128`.
pub open spec fn spec_create_loan(principal: i128, rate_bps: u32, days: u32, fee_bps: u32) -> Option<
    (LoanRecord, i128),
> {
    match spec_interest(principal as int, rate_bps as int, days as int) {
        None => None,
        Some(interest) => match spec_bps_fee(interest, fee_bps as int) {
            None => None,
            Some(fee) => if fits_i128(principal + interest) {
                Some(
                    (
                        LoanRecord {
                            amount: principal,
                            total_due: (principal + interest) as i128,
                            remaining_due: (principal + interest) as i128,
                            status: LoanStatus::Pending,
                            platform_fee: fee as i128,
                        },
                        fee as i128,
                    ),
                )
            } else {
                None
            },
        },
    }
}

/// The loan after a payment of `amount`, and the part of the payment applied
/// (`None` when the payment is refused and the loan is unchanged). A payment
/// must be positive and the loan active; it is capped at the remaining debt,
/// and a loan whose debt reaches zero becomes repaid.
pub open spec fn spec_record_payment(loan: LoanRecord, amount: i128) -> (LoanRecord, Option<i128>) {
    if amount <= 0 || loan.status != LoanStatus::Active {
        (loan, None)
    } else {
        let actual: i128 = if amount >= loan.remaining_due {
            loan.remaining_due
        } else {
            amount
        };
        if !fits_i128(loan.remaining_due - actual) {
            (loan, None)
        } else {
            let remaining = (loan.remaining_due - actual) as i128;
            (
                LoanRecord {
                    remaining_due: remaining,
                    status: if remaining == 0 {
                        LoanStatus::Repaid
                    } else {
                        loan.status
                    },
                    ..loan
                },
                Some(actual),
            )
        }
    }
}

/// The loan after charging a rate-switch fee of `switch_fee_bps` on its
/// remaining debt, and the fee (`None` on overflow). The fee is added to the
/// remaining debt and then to the total due; when only the second addition
/// overflows, the remaining debt has already grown and the total has not.
pub open spec fn spec_apply_switch_fee(loan: LoanRecord, switch_fee_bps: u32) -> (
    LoanRecord,
    Option<i128>,
) {
    match spec_bps_fee(loan.remaining_due as int, switch_fee_bps as int) {
        None => (loan, None),
        Some(fee) => if !fits_i128(loan.remaining_due + fee) {
            (loan, None)
        } else if !fits_i128(loan.total_due + fee) {
            (LoanRecord { remaining_due: (loan.remaining_due + fee) as i128, ..loan }, None)
        } else {
            (
                LoanRecord {
                    remaining_due: (loan.remaining_due + fee) as i128,
                    total_due: (loan.total_due + fee) as i128,
                    ..loan
                },
                Some(fee as i128),
            )
        },
    }
}

/// Creates the accounting record of a new loan request: the interest is
/// computed from principal, rate and term, the platform fee from the
/// interest, and the borrower owes principal plus interest. The loan starts
/// `Pending`. Returns the loan and its platform fee, or `None` on overflow.
pub fn create_loan(principal: i128, rate_bps: u32, days: u32, fee_bps: u32) -> (result: Option<
    (LoanRecord, i128),
>)
    ensures
        result == spec_create_loan(principal, rate_bps, days, fee_bps),
{
    let interest = match calculate_interest(principal, rate_bps, days) {
        Some(i) => i,
        None => return None,
    };
    let platform_fee = match calculate_platform_fee(interest, fee_bps) {
        Some(f) => f,
        None => return None,
    };
    let total_due = match principal.checked_add(interest) {
        Some(t) => t,
        None => return None,
    };
    let loan = LoanRecord {
        amount: principal,
        total_due,
        remaining_due: total_due,
        status: LoanStatus::Pending,
        platform_fee,
    };
    Some((loan, platform_fee))
}

/// Records a repayment of `amount` on an active loan: the payment is capped
/// at the remaining debt, the debt is reduced by the part applied, and the
/// loan becomes `Repaid` when nothing remains. Returns the part applied, or
/// `None` (loan unchanged) when the amount is not positive or the loan is
/// not active.
pub fn record_payment(loan: &mut LoanRecord, amount: i128) -> (result: Option<i128>)
    ensures
        (*final(loan), result) == spec_record_payment(*old(loan), amount),
{
    if amount <= 0 {
        return None;
    }
    if loan.status != LoanStatus::Active {
        return None;
    }
    let actual_payment = if amount >= loan.remaining_due {
        loan.remaining_due
    } else {
        amount
    };
    loan.remaining_due = match loan.remaining_due.checked_sub(actual_payment) {
        Some(r) => r,
        None => return None,
    };
    if loan.remaining_due == 0 {
        loan.status = LoanStatus::Repaid;
    }
    Some(actual_payment)
}

/// Charges the rate-switch fee: `remaining_due × switch_fee_bps / 10_000` is
/// added to both the remaining debt and the total due. Returns the fee, or
/// `None` on overflow (see `spec_apply_switch_fee` for the state then).
pub fn apply_switch_fee(loan: &mut LoanRecord, switch_fee_bps: u32) -> (result: Option<i128>)
    ensures
        (*final(loan), result) == spec_apply_switch_fee(*old(loan), switch_fee_bps),
{
    let fee = match loan.remaining_due.checked_mul(switch_fee_bps as i128) {
        Some(product) => match product.checked_div(10_000) {
            Some(f) => f,
            None => return None,
        },
        None => return None,
    };
    loan.remaining_due = match loan.remaining_due.checked_add(fee) {
        Some(r) => r,
        None => return None,
    };
    loan.total_due = match loan.total_due.checked_add(fee) {
        Some(t) => t,
        None => return None,
    };
    Some(fee)
}

/// A new loan owes exactly principal plus a non-negative interest, nothing is
/// repaid yet, it starts pending, and its platform fee (at most 100% of the
/// interest) is the fee returned.
pub proof fn new_loan_owes_principal_plus_interest(
    principal: i128,
    rate_bps: u32,
    days: u32,
    fee_bps: u32,
)
    requires
        principal >= 0,
        fee_bps <= 10_000,
    ensures
        spec_create_loan(principal, rate_bps, days, fee_bps) matches Some((loan, fee)) ==> {
            &&& loan.amount == principal
            &&& loan.remaining_due == loan.total_due
            &&& loan.total_due >= principal
            &&& loan.remaining_due >= 0
            &&& loan.status == LoanStatus::Pending
            &&& loan.platform_fee == fee
            &&& 0 <= fee <= loan.total_due - principal
        },
{
    crate::lending_laws::interest_sign(principal, rate_bps, days);
    if let Some(interest) = spec_interest(principal as int, rate_bps as int, days as int) {
        crate::lending_laws::fee_within_base(interest as i128, fee_bps);
    }
}

/// The amounts of a new loan, written out for a non-negative principal:
/// the interest is `principal × rate_bps × days / 3_650_000` rounded down,
/// the borrower owes principal plus that interest, and the platform fee is
/// `interest × fee_bps / 10_000` rounded down, for the `fee_bps` given.
/// Whenever none of these leaves the `i128` range the loan is created.
pub proof fn created_loan_amounts(principal: i128, rate_bps: u32, days: u32, fee_bps: u32)
    requires
        principal >= 0,
        fits_i128(principal * rate_bps),
        fits_i128(principal * rate_bps * days),
        fits_i128((principal * rate_bps * days / 3_650_000) * fee_bps),
        fits_i128(principal + principal * rate_bps * days / 3_650_000),
    ensures
        spec_create_loan(principal, rate_bps, days, fee_bps) matches Some((loan, fee)) && {
            let interest = principal * rate_bps * days / 3_650_000;
            &&& loan.amount == principal
            &&& loan.total_due == principal + interest
            &&& loan.remaining_due == principal + interest
            &&& loan.status == LoanStatus::Pending
            &&& fee == interest * fee_bps / 10_000
            &&& loan.platform_fee == fee
        },
{
    let x = principal * rate_bps * days;
    assert(x >= 0) by (nonlinear_arith)
        requires
            principal >= 0,
            x == principal * rate_bps * days,
    ;
    let interest = x / 3_650_000;
    assert(interest * fee_bps >= 0) by (nonlinear_arith)
        requires
            interest >= 0,
    ;
}

/// Loan creation never overflows within the protocol's limits: principal up
/// to 10^11 stroops, rate up to 1500 bps, term up to 365 days and a platform
/// fee of at most 100%.
pub proof fn loan_creation_defined_within_protocol_limits(
    principal: i128,
    rate_bps: u32,
    days: u32,
    fee_bps: u32,
)
    requires
        0 <= principal <= 100_000_000_000,
        rate_bps <= 1500,
        days <= 365,
        fee_bps <= 10_000,
    ensures
        spec_create_loan(principal, rate_bps, days, fee_bps) is Some,
{
    crate::lending_laws::interest_defined_within_protocol_limits(principal, rate_bps, days);
    let interest = spec_interest(principal as int, rate_bps as int, days as int)->0;
    crate::lending_laws::fee_formula_within_protocol_limits(interest as i128, fee_bps);
}

/// The platform fees of two loans within the protocol's limits are
/// non-negative and their sum cannot overflow the fee accumulator.
pub proof fn platform_fees_accumulate_without_overflow(
    p1: i128,
    p2: i128,
    rate_bps: u32,
    days: u32,
    fee_bps: u32,
)
    requires
        0 <= p1 <= 100_000_000_000,
        0 <= p2 <= 100_000_000_000,
        rate_bps <= 1500,
        days <= 365,
        fee_bps <= 10_000,
    ensures
        spec_create_loan(p1, rate_bps, days, fee_bps) matches Some((_l1, f1)) && spec_create_loan(
            p2,
            rate_bps,
            days,
            fee_bps,
        ) matches Some((_l2, f2)) && f1 >= 0 && f2 >= 0 && fits_i128(f1 + f2),
{
    loan_creation_defined_within_protocol_limits(p1, rate_bps, days, fee_bps);
    loan_creation_defined_within_protocol_limits(p2, rate_bps, days, fee_bps);
    new_loan_owes_principal_plus_interest(p1, rate_bps, days, fee_bps);
    new_loan_owes_principal_plus_interest(p2, rate_bps, days, fee_bps);
    crate::lending_laws::interest_defined_within_protocol_limits(p1, rate_bps, days);
    crate::lending_laws::interest_defined_within_protocol_limits(p2, rate_bps, days);
}

/// A positive payment on an active loan with a non-negative debt is always
/// applied: the debt drops by the applied part, which lies between zero and
/// the payment; the debt never goes negative; a payment covering the debt
/// clears it; the loan is repaid exactly when nothing remains, so a partial
/// payment leaves it active; the total due is untouched.
pub proof fn payment_reduces_debt(loan: LoanRecord, amount: i128)
    requires
        loan.status == LoanStatus::Active,
        loan.remaining_due >= 0,
        amount > 0,
    ensures
        ({
            let (after, applied) = spec_record_payment(loan, amount);
            &&& applied == Some((loan.remaining_due - after.remaining_due) as i128)
            &&& 0 <= loan.remaining_due - after.remaining_due <= amount
            &&& after.remaining_due >= 0
            &&& (amount >= loan.remaining_due ==> after.remaining_due == 0)
            &&& (after.remaining_due == 0 <==> after.status == LoanStatus::Repaid)
            &&& (amount < loan.remaining_due ==> after.status == LoanStatus::Active)
            &&& after.total_due == loan.total_due
            &&& after.amount == loan.amount
            &&& after.platform_fee == loan.platform_fee
        }),
{
}

/// A payment that is not positive, or made on a loan that is not active,
/// is refused and leaves the loan unchanged.
pub proof fn refused_payment_changes_nothing(loan: LoanRecord, amount: i128)
    requires
        amount <= 0 || loan.status != LoanStatus::Active,
    ensures
        spec_record_payment(loan, amount) == (loan, None::<i128>),
{
}

/// The rate-switch fee is non-negative and raises the remaining debt and the
/// total due by exactly the fee, so a debt within the total stays within it.
pub proof fn switch_fee_grows_debt_by_fee(loan: LoanRecord, switch_fee_bps: u32)
    requires
        0 <= loan.remaining_due <= loan.total_due,
    ensures
        ({
            let (after, fee) = spec_apply_switch_fee(loan, switch_fee_bps);
            fee matches Some(f) ==> {
                &&& f >= 0
                &&& after.remaining_due == loan.remaining_due + f
                &&& after.total_due == loan.total_due + f
                &&& after.remaining_due <= after.total_due
                &&& after.status == loan.status
            }
        }),
{
    assert(loan.remaining_due * switch_fee_bps >= 0) by (nonlinear_arith)
        requires
            loan.remaining_due >= 0,
            switch_fee_bps >= 0,
    ;
}

/// A positive payment on an active loan is always accepted: the part
/// applied is the payment capped at the remaining debt, the debt drops by
/// exactly that part, and the loan is repaid exactly when nothing remains.
pub proof fn active_loan_accepts_payment(loan: LoanRecord, amount: i128)
    requires
        loan.status == LoanStatus::Active,
        loan.remaining_due >= 0,
        amount > 0,
    ensures
        ({
            let (after, applied) = spec_record_payment(loan, amount);
            let part = if amount < loan.remaining_due {
                amount as int
            } else {
                loan.remaining_due as int
            };
            &&& applied == Some(part as i128)
            &&& after.remaining_due == loan.remaining_due - part
            &&& (after.status == LoanStatus::Repaid) == (amount >= loan.remaining_due)
            &&& after.amount == loan.amount && after.total_due == loan.total_due
        }),
{
}

} // verus!
