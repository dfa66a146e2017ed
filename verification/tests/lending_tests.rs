use trustlend::flash_loan::{simulate_flash_loan_failure, simulate_flash_loan_success};
use trustlend::lending_math::{
    calculate_flash_loan_fee, calculate_interest, calculate_liquidation_threshold,
    calculate_platform_fee, calculate_rate_switch_fee, validate_flash_loan_fee,
    validate_platform_fee, DEFAULT_FLASH_LOAN_FEE_BPS, DEFAULT_PLATFORM_FEE_BPS,
    MAX_FLASH_LOAN_FEE_BPS, MAX_PLATFORM_FEE_BPS,
};
use trustlend::loan_accounting::{apply_switch_fee, create_loan, record_payment, LoanRecord};
use trustlend::loan_lifecycle::{action_blocked_when_paused, transition, Action, LoanStatus};

const MAX_PRINCIPAL: i128 = 100_000_000_000;

// ─── interest ────────────────────────────────────────────────────────────────

#[test]
fn interest_formula_values() {
    // 1000 XLM at 10% for a year: 100 XLM
    assert_eq!(calculate_interest(10_000_000_000, 1000, 365), Some(1_000_000_000));
    // 30 days: 10^10 * 1000 * 30 / 3_650_000 = 82_191_780.8…
    assert_eq!(calculate_interest(10_000_000_000, 1000, 30), Some(82_191_780));
    // negative principals round toward zero
    assert_eq!(calculate_interest(-10, 1, 1), Some(0));
    assert_eq!(calculate_interest(-3_650_001, 1, 1), Some(-1));
}

#[test]
fn interest_no_overflow_at_protocol_limits() {
    assert_eq!(calculate_interest(MAX_PRINCIPAL, 1500, 365), Some(15_000_000_000));
    assert!(calculate_interest(0, 1500, 365).is_some());
}

#[test]
fn interest_overflow_detected() {
    assert_eq!(calculate_interest(i128::MAX, 2, 1), None);
    // the first product fits, the second does not
    assert_eq!(calculate_interest(i128::MAX / 2, 2, 2), None);
}

#[test]
fn interest_positive_only_from_one_unit() {
    // principal × rate × days below 3_650_000 rounds down to zero
    assert_eq!(calculate_interest(1, 1, 1), Some(0));
    assert_eq!(calculate_interest(3_649_999, 1, 1), Some(0));
    assert_eq!(calculate_interest(3_650_000, 1, 1), Some(1));
    assert_eq!(calculate_interest(10_000, 1, 365), Some(1));
}

#[test]
fn interest_monotonic_examples() {
    let base = calculate_interest(50_000_000, 700, 90).unwrap();
    assert!(calculate_interest(50_000_001, 700, 90).unwrap() >= base);
    assert!(calculate_interest(50_000_000, 701, 90).unwrap() >= base);
    assert!(calculate_interest(50_000_000, 700, 91).unwrap() >= base);
}

#[test]
fn interest_minimum_and_annual_identity() {
    assert_eq!(calculate_interest(7_300_001, 1, 1), Some(7_300_001 / 3_650_000));
    assert_eq!(calculate_interest(123_456_789, 1234, 365), Some(123_456_789 * 1234 / 10_000));
}

// ─── fees ────────────────────────────────────────────────────────────────────

#[test]
fn fee_formula_values() {
    assert_eq!(calculate_platform_fee(1_000_000, 100), Some(10_000));
    assert_eq!(calculate_flash_loan_fee(1_000_000, 9), Some(900));
    assert_eq!(calculate_flash_loan_fee(1_111, 9), Some(0));
    assert_eq!(calculate_rate_switch_fee(1_000_000), Some(5_000));
    assert_eq!(calculate_rate_switch_fee(399), Some(1));
    assert_eq!(calculate_platform_fee(-19_999, 1), Some(-1));
    assert_eq!(calculate_platform_fee(i128::MAX, 2), None);
}

#[test]
fn fee_never_exceeds_base() {
    assert!(calculate_platform_fee(MAX_PRINCIPAL, MAX_PLATFORM_FEE_BPS).unwrap() <= MAX_PRINCIPAL);
    assert!(
        calculate_flash_loan_fee(MAX_PRINCIPAL, MAX_FLASH_LOAN_FEE_BPS).unwrap() <= MAX_PRINCIPAL
    );
    assert_eq!(calculate_platform_fee(777, 10_000), Some(777));
}

#[test]
fn fee_monotonic_examples() {
    assert!(calculate_flash_loan_fee(10_000, 9).unwrap() <= calculate_flash_loan_fee(20_000, 9).unwrap());
    assert!(calculate_flash_loan_fee(10_000, 9).unwrap() <= calculate_flash_loan_fee(10_000, 10).unwrap());
}

#[test]
fn rate_switch_fee_is_half_percent() {
    for remaining in [0i128, 1, 199, 200, 12_345, MAX_PRINCIPAL] {
        assert_eq!(calculate_rate_switch_fee(remaining), Some(remaining / 200));
    }
}

#[test]
fn fee_validation_caps() {
    assert_eq!(validate_platform_fee(MAX_PLATFORM_FEE_BPS), Some(MAX_PLATFORM_FEE_BPS));
    assert_eq!(validate_flash_loan_fee(MAX_FLASH_LOAN_FEE_BPS), Some(MAX_FLASH_LOAN_FEE_BPS));
    assert_eq!(validate_platform_fee(MAX_PLATFORM_FEE_BPS + 1), None);
    assert_eq!(validate_flash_loan_fee(MAX_FLASH_LOAN_FEE_BPS + 1), None);
    assert_eq!(validate_platform_fee(0), Some(0));
    assert_eq!(validate_flash_loan_fee(0), Some(0));
    assert_eq!(validate_platform_fee(250), validate_platform_fee(250));
    assert_eq!(DEFAULT_PLATFORM_FEE_BPS, 100);
    assert_eq!(DEFAULT_FLASH_LOAN_FEE_BPS, 9);
}

// ─── liquidation threshold ───────────────────────────────────────────────────

#[test]
fn liquidation_threshold_values() {
    assert_eq!(calculate_liquidation_threshold(0, 0), 7500);
    assert_eq!(calculate_liquidation_threshold(100, 0), 7650);
    assert_eq!(calculate_liquidation_threshold(101, 1), 7651); // 151 bonus, 0 penalty
    assert_eq!(calculate_liquidation_threshold(500, 1000), 7750);
    assert_eq!(calculate_liquidation_threshold(1000, 0), 9000);
    assert_eq!(calculate_liquidation_threshold(2000, 0), 9000);
    assert_eq!(calculate_liquidation_threshold(0, 10_000), 5000);
    assert_eq!(calculate_liquidation_threshold(0, u32::MAX), 5000);
}

#[test]
fn liquidation_threshold_bonus_capped_at_1500() {
    // the bonus stops at 1500 bps: 7500 + 1500 - 3000
    assert_eq!(calculate_liquidation_threshold(2000, 6000), 6000);
    assert_eq!(calculate_liquidation_threshold(1000, 6000), 6000);
    assert_eq!(calculate_liquidation_threshold(999, 6000), 5998);
    assert_eq!(calculate_liquidation_threshold(2_863_306_530, 0), 9000);
    assert_eq!(calculate_liquidation_threshold(2_863_306_531, 0), 9000);
    assert_eq!(calculate_liquidation_threshold(u32::MAX, 0), 9000);
    assert_eq!(calculate_liquidation_threshold(u32::MAX, 4000), 7000);
}

#[test]
fn liquidation_threshold_monotonic_in_score() {
    let mut previous = calculate_liquidation_threshold(0, 3000);
    for score in (0..=1000).step_by(50) {
        let t = calculate_liquidation_threshold(score, 3000);
        assert!(t >= previous);
        assert!((5000..=9000).contains(&t));
        previous = t;
    }
}

// ─── flash loans ─────────────────────────────────────────────────────────────

#[test]
fn flash_loan_success_adds_fee() {
    assert_eq!(simulate_flash_loan_success(1_000_000, 500_000, 9), Some((1_000_450, 450)));
    assert_eq!(simulate_flash_loan_success(MAX_PRINCIPAL, MAX_PRINCIPAL, 500), Some((105_000_000_000, 5_000_000_000)));
}

#[test]
fn flash_loan_rejections() {
    assert_eq!(simulate_flash_loan_success(1_000, 0, 9), None);
    assert_eq!(simulate_flash_loan_success(1_000, -5, 9), None);
    assert_eq!(simulate_flash_loan_success(1_000, 1_001, 9), None);
    assert_eq!(simulate_flash_loan_success(i128::MAX, i128::MAX, 2), None);
    assert_eq!(simulate_flash_loan_success(i128::MAX, 10_000, 9), None);
}

#[test]
fn flash_loan_failure_keeps_pool() {
    assert_eq!(simulate_flash_loan_failure(7_777, 100), Some(7_777));
    assert_eq!(simulate_flash_loan_failure(7_777, 0), None);
}

// ─── loan accounting ─────────────────────────────────────────────────────────

fn active_loan(principal: i128) -> LoanRecord {
    let (mut loan, _fee) = create_loan(principal, 1000, 365, 100).unwrap();
    loan.status = LoanStatus::Active;
    loan
}

#[test]
fn create_loan_values() {
    let (loan, fee) = create_loan(10_000_000_000, 1000, 365, 100).unwrap();
    assert_eq!(loan.amount, 10_000_000_000);
    assert_eq!(loan.total_due, 11_000_000_000);
    assert_eq!(loan.remaining_due, loan.total_due);
    assert_eq!(loan.status, LoanStatus::Pending);
    assert_eq!(fee, 10_000_000);
    assert_eq!(loan.platform_fee, fee);
    assert!(create_loan(MAX_PRINCIPAL, 1500, 365, 1000).is_some());
    assert_eq!(create_loan(i128::MAX, 1, 365, 0), None);
}

#[test]
fn fee_accumulation_within_limits() {
    let (_, f1) = create_loan(MAX_PRINCIPAL, 1500, 365, 1000).unwrap();
    let (_, f2) = create_loan(10_000_000_000, 1500, 365, 1000).unwrap();
    assert!(f1 >= 0 && f2 >= 0);
    assert!(f1.checked_add(f2).is_some());
}

#[test]
fn partial_then_full_payment() {
    let mut loan = active_loan(1_000);
    assert_eq!(loan.remaining_due, 1_100);
    assert_eq!(record_payment(&mut loan, 600), Some(600));
    assert_eq!(loan.remaining_due, 500);
    assert_eq!(loan.status, LoanStatus::Active);
    assert_eq!(record_payment(&mut loan, 501), Some(500));
    assert_eq!(loan.remaining_due, 0);
    assert_eq!(loan.status, LoanStatus::Repaid);
    assert_eq!(loan.total_due, 1_100);
}

#[test]
fn refused_payments_change_nothing() {
    let mut loan = active_loan(1_000);
    let before = loan;
    assert_eq!(record_payment(&mut loan, 0), None);
    assert_eq!(record_payment(&mut loan, -3), None);
    assert_eq!(loan, before);
    let (mut pending, _) = create_loan(1_000, 1000, 365, 100).unwrap();
    let pending_before = pending;
    assert_eq!(record_payment(&mut pending, 10), None);
    assert_eq!(pending, pending_before);
}

#[test]
fn switch_fee_raises_debt() {
    let mut loan = active_loan(100_000);
    assert_eq!(loan.remaining_due, 110_000);
    assert_eq!(apply_switch_fee(&mut loan, 50), Some(550));
    assert_eq!(loan.remaining_due, 110_550);
    assert_eq!(loan.total_due, 110_550);
    assert!(loan.remaining_due <= loan.total_due);
}

#[test]
fn switch_fee_overflow_keeps_partial_update() {
    let mut loan = LoanRecord {
        amount: 0,
        total_due: i128::MAX,
        remaining_due: i128::MAX / 2,
        status: LoanStatus::Active,
        platform_fee: 0,
    };
    assert_eq!(apply_switch_fee(&mut loan, 1), None);
    // the remaining debt grew, the total could not
    assert_eq!(loan.remaining_due, i128::MAX / 2 + (i128::MAX / 2) / 10_000);
    assert_eq!(loan.total_due, i128::MAX);
}

// ─── loan lifecycle ──────────────────────────────────────────────────────────

const ALL_ACTIONS: [Action; 8] = [
    Action::Approve,
    Action::Cancel,
    Action::Revoke,
    Action::Activate,
    Action::RecordPayment,
    Action::FullPayment,
    Action::Default,
    Action::SwitchRate,
];

#[test]
fn lifecycle_transitions() {
    for action in ALL_ACTIONS {
        let pending = transition(LoanStatus::Pending, action);
        match action {
            Action::Approve => assert_eq!(pending, Some(LoanStatus::Approved)),
            Action::Cancel => assert_eq!(pending, Some(LoanStatus::Cancelled)),
            _ => assert_eq!(pending, None),
        }
        let approved = transition(LoanStatus::Approved, action);
        match action {
            Action::Revoke => assert_eq!(approved, Some(LoanStatus::Pending)),
            Action::Activate => assert_eq!(approved, Some(LoanStatus::Active)),
            _ => assert_eq!(approved, None),
        }
        let active = transition(LoanStatus::Active, action);
        match action {
            Action::RecordPayment => assert_eq!(active, Some(LoanStatus::Active)),
            Action::FullPayment => assert_eq!(active, Some(LoanStatus::Repaid)),
            Action::Default => assert_eq!(active, Some(LoanStatus::Defaulted)),
            _ => assert_eq!(active, None),
        }
        assert_eq!(transition(LoanStatus::Repaid, action), None);
        assert_eq!(transition(LoanStatus::Defaulted, action), None);
        assert_eq!(transition(LoanStatus::Cancelled, action), None);
    }
}

#[test]
fn paused_blocks_actions() {
    assert!(action_blocked_when_paused(Action::Approve));
    assert!(action_blocked_when_paused(Action::Activate));
    assert!(action_blocked_when_paused(Action::Default));
    assert!(action_blocked_when_paused(Action::SwitchRate));
    assert!(!action_blocked_when_paused(Action::Cancel));
    assert!(!action_blocked_when_paused(Action::Revoke));
    assert!(!action_blocked_when_paused(Action::RecordPayment));
    assert!(!action_blocked_when_paused(Action::FullPayment));
}

#[test]
fn reachable_states_from_pending() {
    let approved = transition(LoanStatus::Pending, Action::Approve);
    let cancelled = transition(LoanStatus::Pending, Action::Cancel);
    let active = approved.and_then(|s| transition(s, Action::Activate));
    let back_to_pending = approved.and_then(|s| transition(s, Action::Revoke));
    let repaid = active.and_then(|s| transition(s, Action::FullPayment));
    let defaulted = active.and_then(|s| transition(s, Action::Default));
    assert_eq!(approved, Some(LoanStatus::Approved));
    assert_eq!(cancelled, Some(LoanStatus::Cancelled));
    assert_eq!(active, Some(LoanStatus::Active));
    assert_eq!(repaid, Some(LoanStatus::Repaid));
    assert_eq!(defaulted, Some(LoanStatus::Defaulted));
    assert_eq!(back_to_pending, Some(LoanStatus::Pending));
}
