use trustlend::access::Account;
use trustlend::default_management::{
    DefaultManagementContract, DefaultManagementEvent, DefaultPhase, InsuranceEvent,
};
use trustlend::errors::ContractError;

const ADMIN: Account = Account(1);
const SIGNER1: Account = Account(2);
const BORROWER: Account = Account(3);
const LENDER: Account = Account(4);
const NOW: u64 = 1_700_000_000;

fn setup() -> DefaultManagementContract {
    let mut contract = DefaultManagementContract::new();
    contract.initialize(ADMIN, 10_000_000).unwrap();
    contract
}

fn setup_with_multisig() -> DefaultManagementContract {
    let mut contract = setup();
    contract.setup_multisig(ADMIN, vec![ADMIN, SIGNER1], 2).unwrap();
    contract
}

// ─── Basic tests ─────────────────────────────────────────────────────────────

#[test]
fn test_basic_initialization() {
    let contract = setup();
    assert_eq!(contract.get_admin(), Ok(ADMIN));
    assert_eq!(contract.get_insurance_balance(), 10_000_000);
}

#[test]
fn test_record_default() {
    let mut contract = setup();
    let phase = contract.record_default(ADMIN, 1, BORROWER, 1_000_000, 5, NOW).unwrap();
    assert_eq!(phase, DefaultPhase::Friendly);

    let record = contract.get_default_record(1).unwrap();
    assert_eq!(record.loan_id, 1);
    assert_eq!(record.phase, DefaultPhase::Friendly);
}

#[test]
fn test_insurance_payout() {
    let mut contract = setup();
    contract.trigger_insurance_payout(ADMIN, 1, LENDER, 5_000_000, NOW).unwrap();
    assert_eq!(contract.get_insurance_balance(), 5_000_000);
}

#[test]
fn test_insurance_payout_insufficient_funds() {
    let mut contract = setup();
    let result = contract.trigger_insurance_payout(ADMIN, 1, LENDER, 20_000_000, NOW);
    assert_eq!(result, Err(ContractError::InsufficientInsuranceFunds));
    assert_eq!(result.unwrap_err().message(), "Insufficient insurance funds");
}

// ─── Pausable / Multi-sig tests ──────────────────────────────────────────────

#[test]
fn test_def_setup_multisig() {
    let contract = setup_with_multisig();
    let admins = contract.get_multisig_admins();
    assert_eq!(admins.len(), 2);
    assert!(admins.iter().any(|a| *a == ADMIN));
    assert!(admins.iter().any(|a| *a == SIGNER1));
    assert_eq!(contract.get_multisig_threshold(), 2);
    assert!(!contract.is_paused());
}

#[test]
fn test_def_pause_activates_with_threshold() {
    let mut contract = setup_with_multisig();
    assert!(!contract.is_paused());
    contract.pause(ADMIN).unwrap();
    assert!(!contract.is_paused());
    contract.pause(SIGNER1).unwrap();
    assert!(contract.is_paused());
}

#[test]
fn test_def_record_default_blocked_when_paused() {
    let mut contract = setup_with_multisig();
    contract.pause(ADMIN).unwrap();
    contract.pause(SIGNER1).unwrap();
    let result = contract.record_default(ADMIN, 1, BORROWER, 1_000_000, 5, NOW);
    assert_eq!(result, Err(ContractError::Paused));
    assert_eq!(result.unwrap_err().message(), "Contract is paused");
}

#[test]
fn test_def_insurance_payout_blocked_when_paused() {
    let mut contract = setup_with_multisig();
    contract.pause(ADMIN).unwrap();
    contract.pause(SIGNER1).unwrap();
    let result = contract.trigger_insurance_payout(ADMIN, 1, LENDER, 5_000_000, NOW);
    assert_eq!(result, Err(ContractError::Paused));
}

#[test]
fn test_def_add_to_insurance_allowed_when_paused() {
    let mut contract = setup_with_multisig();
    contract.pause(ADMIN).unwrap();
    contract.pause(SIGNER1).unwrap();
    // Emergency funding still works
    contract.add_to_insurance(ADMIN, 2_000_000).unwrap();
    assert_eq!(contract.get_insurance_balance(), 12_000_000);
}

#[test]
fn test_def_unpause_restores_operations() {
    let mut contract = setup_with_multisig();
    contract.pause(ADMIN).unwrap();
    contract.pause(SIGNER1).unwrap();
    assert!(contract.is_paused());

    contract.unpause(ADMIN).unwrap();
    contract.unpause(SIGNER1).unwrap();
    assert!(!contract.is_paused());

    let phase = contract.record_default(ADMIN, 1, BORROWER, 1_000_000, 5, NOW).unwrap();
    assert_eq!(phase, DefaultPhase::Friendly);
}

#[test]
fn test_def_unpause_when_not_paused_rejected() {
    let mut contract = setup_with_multisig();
    let result = contract.unpause(ADMIN);
    assert_eq!(result, Err(ContractError::NotPaused));
    assert_eq!(result.unwrap_err().message(), "Contract is not paused");
}

#[test]
fn test_def_non_admin_cannot_pause() {
    let mut contract = setup_with_multisig();
    let result = contract.pause(Account(77));
    assert_eq!(result, Err(ContractError::NotMultisigAdmin));
    assert_eq!(result.unwrap_err().message(), "Unauthorised: caller is not a multisig admin");
}

#[test]
fn test_def_duplicate_pause_signer_rejected() {
    let mut contract = setup_with_multisig();
    contract.pause(ADMIN).unwrap();
    let result = contract.pause(ADMIN);
    assert_eq!(result, Err(ContractError::DuplicatePauseSigner));
    assert_eq!(result.unwrap_err().message(), "Signer has already authorised pause");
}

#[test]
fn test_def_duplicate_unpause_signer_rejected() {
    let mut contract = setup_with_multisig();
    contract.pause(ADMIN).unwrap();
    contract.pause(SIGNER1).unwrap();
    contract.unpause(ADMIN).unwrap();
    let result = contract.unpause(ADMIN);
    assert_eq!(result, Err(ContractError::DuplicateUnpauseSigner));
    assert_eq!(result.unwrap_err().message(), "Signer has already authorised unpause");
}

#[test]
fn test_def_pause_threshold_count_tracking() {
    let mut contract = setup_with_multisig();
    assert_eq!(contract.get_pause_signer_count(), 0);
    contract.pause(ADMIN).unwrap();
    assert_eq!(contract.get_pause_signer_count(), 1);
    contract.pause(SIGNER1).unwrap();
    assert_eq!(contract.get_pause_signer_count(), 0); // reset after activation
    assert_eq!(contract.events, vec![DefaultManagementEvent::Paused]);
}

// ─── further behaviour ───────────────────────────────────────────────────────

#[test]
fn default_phase_boundaries() {
    let phase = DefaultManagementContract::days_to_phase;
    assert_eq!(phase(0), DefaultPhase::Reported);
    assert_eq!(phase(1), DefaultPhase::Friendly);
    assert_eq!(phase(7), DefaultPhase::Friendly);
    assert_eq!(phase(8), DefaultPhase::Warning);
    assert_eq!(phase(21), DefaultPhase::Warning);
    assert_eq!(phase(22), DefaultPhase::Enforcement);
    assert_eq!(phase(60), DefaultPhase::Enforcement);
    assert_eq!(phase(61), DefaultPhase::Reported);
    assert_eq!(phase(u64::MAX), DefaultPhase::Reported);
}

#[test]
fn default_record_holds_all_fields() {
    let mut contract = setup();
    assert_eq!(
        contract.record_default(ADMIN, 4, BORROWER, 250, 30, NOW),
        Ok(DefaultPhase::Enforcement)
    );
    let record = contract.get_default_record(4).unwrap();
    assert_eq!(record.borrower, BORROWER);
    assert_eq!(record.amount, 250);
    assert_eq!(record.recorded_at, NOW);
    assert_eq!(record.days_overdue, 30);
    assert_eq!(contract.get_default_record(5), Err(ContractError::DefaultRecordNotFound));
}

#[test]
fn insurance_events_are_numbered() {
    let mut contract = setup();
    contract.trigger_insurance_payout(ADMIN, 1, LENDER, 1_000, NOW).unwrap();
    contract.trigger_insurance_payout(ADMIN, 2, LENDER, 2_000, NOW + 1).unwrap();
    assert_eq!(contract.get_insurance_event_count(), 2);
    assert_eq!(
        contract.get_insurance_event(2),
        Ok(InsuranceEvent { loan_id: 2, lender: LENDER, amount_paid: 2_000, paid_at: NOW + 1 })
    );
    assert_eq!(contract.get_insurance_event(3), Err(ContractError::InsuranceEventNotFound));
    assert_eq!(contract.get_insurance_balance(), 10_000_000 - 3_000);
}

#[test]
fn multisig_link_gates_insurance() {
    let mut contract = setup();
    let multisig = Account(50);
    assert_eq!(contract.get_multisig_admin(), Err(ContractError::MultisigAdminNotConfigured));
    assert_eq!(contract.add_to_insurance(ADMIN, 1), Err(ContractError::MultisigNotConfigured));
    contract.set_multisig_admin(ADMIN, multisig).unwrap();
    assert_eq!(contract.get_multisig_admin(), Ok(multisig));
    assert_eq!(contract.get_multisig_admins(), vec![multisig]);
    assert_eq!(contract.add_to_insurance(ADMIN, 1), Err(ContractError::NotMultisigAdmin));
    contract.add_to_insurance(multisig, 1_000).unwrap();
    assert_eq!(contract.get_insurance_balance(), 10_001_000);
    assert_eq!(
        contract.set_multisig_admin(ADMIN, Account(51)),
        Err(ContractError::MultisigAdminAlreadyConfigured)
    );
    // once linked, only the multisig may pay out
    assert_eq!(
        contract.trigger_insurance_payout(BORROWER, 1, LENDER, 1, NOW),
        Err(ContractError::NotMultisigAdmin)
    );
    contract.trigger_insurance_payout(multisig, 1, LENDER, 1_000, NOW).unwrap();
    assert_eq!(contract.get_insurance_balance(), 10_000_000);
    assert_eq!(contract.get_insurance_event_count(), 1);
}

#[test]
fn linked_multisig_refuses_admin_payout() {
    let mut contract = setup();
    let multisig = Account(50);
    contract.set_multisig_admin(ADMIN, multisig).unwrap();
    let result = contract.trigger_insurance_payout(ADMIN, 1, LENDER, 5_000_000, NOW);
    assert_eq!(result, Err(ContractError::NotMultisigAdmin));
    assert_eq!(result.unwrap_err().message(), "Unauthorised: caller is not a multisig admin");
    assert_eq!(contract.get_insurance_balance(), 10_000_000);
    assert_eq!(contract.get_insurance_event_count(), 0);
    contract.trigger_insurance_payout(multisig, 1, LENDER, 5_000_000, NOW).unwrap();
    assert_eq!(contract.get_insurance_balance(), 5_000_000);
}

#[test]
fn linked_multisig_stays_sole_fund_mover_after_resetup() {
    let mut contract = setup();
    let multisig = Account(50);
    contract.set_multisig_admin(ADMIN, multisig).unwrap();
    // re-configuring the pause signers does not reopen the fund
    contract.setup_multisig(ADMIN, vec![SIGNER1], 1).unwrap();
    assert_eq!(contract.add_to_insurance(SIGNER1, 1), Err(ContractError::NotMultisigAdmin));
    assert_eq!(contract.add_to_insurance(ADMIN, 1), Err(ContractError::NotMultisigAdmin));
    contract.add_to_insurance(multisig, 1).unwrap();
    assert_eq!(contract.get_insurance_balance(), 10_000_001);
}

#[test]
fn default_management_admin_errors() {
    let mut fresh = DefaultManagementContract::new();
    assert_eq!(fresh.get_admin(), Err(ContractError::NotInitialised));
    assert_eq!(fresh.upgrade(ADMIN), Err(ContractError::NotInitialised));
    assert_eq!(fresh.record_default(ADMIN, 1, BORROWER, 1, 1, NOW), Err(ContractError::NotInitialised));
    let mut contract = setup();
    assert_eq!(contract.initialize(ADMIN, 5), Err(ContractError::AlreadyInitialised));
    assert_eq!(contract.upgrade(ADMIN), Ok(()));
    assert_eq!(contract.upgrade(BORROWER), Err(ContractError::NotAdmin));
    assert_eq!(
        contract.add_to_insurance(ADMIN, i128::MAX),
        Err(ContractError::MultisigNotConfigured)
    );
    contract.setup_multisig(ADMIN, vec![SIGNER1], 1).unwrap();
    assert_eq!(contract.add_to_insurance(SIGNER1, i128::MAX), Err(ContractError::ArithmeticOverflow));
    // a negative "payout" is accepted and grows the fund
    contract.trigger_insurance_payout(ADMIN, 1, LENDER, -5, NOW).unwrap();
    assert_eq!(contract.get_insurance_balance(), 10_000_005);
}
