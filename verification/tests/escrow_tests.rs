use trustlend::access::Account;
use trustlend::errors::ContractError;
use trustlend::escrow::{EscrowContract, EscrowEvent, EscrowStatus};

const WINDOW_SECONDS: u64 = 180;
const START_TIMESTAMP: u64 = 1_000;

const ADMIN: Account = Account(1);
const LENDER: Account = Account(2);
const BORROWER: Account = Account(3);
const SIGNER1: Account = Account(4);

fn setup() -> EscrowContract {
    let mut escrow = EscrowContract::new();
    escrow.initialize(ADMIN).unwrap();
    escrow
}

fn setup_with_multisig() -> EscrowContract {
    let mut escrow = setup();
    escrow.setup_multisig(ADMIN, vec![ADMIN, SIGNER1], 2).unwrap();
    escrow
}

#[test]
fn test_revocation_window_is_open_until_exact_expiry() {
    let mut escrow = setup();
    let escrow_id = escrow.create_hold(LENDER, BORROWER, 7, 5_000_000, START_TIMESTAMP).unwrap();
    let hold = escrow.get_hold(escrow_id).unwrap();

    assert!(escrow.is_within_revocation_window(escrow_id, hold.expires_at - 1).unwrap());
    assert!(!escrow.is_within_revocation_window(escrow_id, hold.expires_at).unwrap());
}

#[test]
fn test_revoke_hold_succeeds_before_expiry() {
    let mut escrow = setup();
    let escrow_id = escrow.create_hold(LENDER, BORROWER, 12, 8_000_000, START_TIMESTAMP).unwrap();
    let hold = escrow.get_hold(escrow_id).unwrap();

    escrow.revoke_hold(LENDER, escrow_id, hold.expires_at - 1).unwrap();

    let updated = escrow.get_hold(escrow_id).unwrap();
    assert_eq!(updated.status, EscrowStatus::Revoked);
}

#[test]
fn test_revoke_hold_fails_at_exact_expiry() {
    let mut escrow = setup();
    let escrow_id = escrow.create_hold(LENDER, BORROWER, 13, 8_000_000, START_TIMESTAMP).unwrap();
    let hold = escrow.get_hold(escrow_id).unwrap();

    let result = escrow.revoke_hold(LENDER, escrow_id, hold.expires_at);
    assert_eq!(result, Err(ContractError::RevocationWindowExpired));
    assert_eq!(result.unwrap_err().message(), "Revocation window has expired");
}

#[test]
fn test_confirm_disbursement_succeeds_at_exact_expiry() {
    let mut escrow = setup();
    let escrow_id = escrow.create_hold(LENDER, BORROWER, 99, 9_500_000, START_TIMESTAMP).unwrap();
    let hold = escrow.get_hold(escrow_id).unwrap();

    escrow.confirm_disbursement(ADMIN, escrow_id, hold.expires_at).unwrap();

    let updated = escrow.get_hold(escrow_id).unwrap();
    assert_eq!(updated.status, EscrowStatus::Transferred);
}

#[test]
fn test_confirm_disbursement_fails_before_expiry() {
    let mut escrow = setup();
    let escrow_id = escrow.create_hold(LENDER, BORROWER, 100, 9_500_000, START_TIMESTAMP).unwrap();
    let hold = escrow.get_hold(escrow_id).unwrap();

    let result = escrow.confirm_disbursement(ADMIN, escrow_id, hold.expires_at - 1);
    assert_eq!(result, Err(ContractError::RevocationWindowOpen));
    assert_eq!(result.unwrap_err().message(), "Revocation window has not expired yet");
}

#[test]
fn test_create_hold_sets_expected_expiry_window() {
    let mut escrow = setup();
    let escrow_id = escrow.create_hold(LENDER, BORROWER, 5, 1_000_000, START_TIMESTAMP).unwrap();
    let hold = escrow.get_hold(escrow_id).unwrap();

    assert_eq!(hold.held_at, START_TIMESTAMP);
    assert_eq!(hold.expires_at, START_TIMESTAMP + WINDOW_SECONDS);
    assert_eq!(hold.status, EscrowStatus::Held);
}

#[test]
fn test_deposit_and_withdraw_emit_events() {
    let mut escrow = setup();
    let pool_id = 42u32;
    let amount = 5_000_000i128;

    let escrow_id = escrow.create_hold(LENDER, BORROWER, pool_id, amount, START_TIMESTAMP).unwrap();
    assert_eq!(
        escrow.events,
        vec![EscrowEvent::Deposit { lender: LENDER, loan_id: pool_id, amount }]
    );

    let hold = escrow.get_hold(escrow_id).unwrap();
    escrow.revoke_hold(LENDER, escrow_id, hold.expires_at - 1).unwrap();
    assert_eq!(
        escrow.events,
        vec![EscrowEvent::Withdraw { lender: LENDER, loan_id: pool_id, amount }]
    );
}

// ─── Pausable / Multi-sig tests ──────────────────────────────────────────────

#[test]
fn test_escrow_setup_multisig() {
    let escrow = setup_with_multisig();
    let admins = escrow.get_multisig_admins();
    assert_eq!(admins.len(), 2);
    assert!(admins.iter().any(|a| *a == ADMIN));
    assert!(admins.iter().any(|a| *a == SIGNER1));
    assert_eq!(escrow.get_multisig_threshold(), 2);
    assert!(!escrow.is_paused());
}

#[test]
fn test_escrow_pause_activates_with_threshold() {
    let mut escrow = setup_with_multisig();
    assert!(!escrow.is_paused());

    escrow.pause(ADMIN).unwrap();
    assert!(!escrow.is_paused());

    escrow.pause(SIGNER1).unwrap();
    assert!(escrow.is_paused());
}

#[test]
fn test_escrow_create_hold_blocked_when_paused() {
    let mut escrow = setup_with_multisig();
    escrow.pause(ADMIN).unwrap();
    escrow.pause(SIGNER1).unwrap();

    let result = escrow.create_hold(LENDER, BORROWER, 1, 5_000_000, START_TIMESTAMP);
    assert_eq!(result, Err(ContractError::Paused));
    assert_eq!(result.unwrap_err().message(), "Contract is paused");
}

#[test]
fn test_escrow_confirm_disbursement_blocked_when_paused() {
    let mut escrow = setup_with_multisig();
    let escrow_id = escrow.create_hold(LENDER, BORROWER, 7, 5_000_000, START_TIMESTAMP).unwrap();
    let hold = escrow.get_hold(escrow_id).unwrap();

    escrow.pause(ADMIN).unwrap();
    escrow.pause(SIGNER1).unwrap();

    let result = escrow.confirm_disbursement(ADMIN, escrow_id, hold.expires_at);
    assert_eq!(result, Err(ContractError::Paused));
}

#[test]
fn test_escrow_revoke_hold_allowed_when_paused() {
    let mut escrow = setup_with_multisig();
    let escrow_id = escrow.create_hold(LENDER, BORROWER, 7, 5_000_000, START_TIMESTAMP).unwrap();
    let hold = escrow.get_hold(escrow_id).unwrap();

    escrow.pause(ADMIN).unwrap();
    escrow.pause(SIGNER1).unwrap();

    // Revoke still works (lender protecting their funds)
    escrow.revoke_hold(LENDER, escrow_id, hold.expires_at - 1).unwrap();

    let updated = escrow.get_hold(escrow_id).unwrap();
    assert_eq!(updated.status, EscrowStatus::Revoked);
}

#[test]
fn test_escrow_unpause_restores_operations() {
    let mut escrow = setup_with_multisig();
    escrow.pause(ADMIN).unwrap();
    escrow.pause(SIGNER1).unwrap();
    assert!(escrow.is_paused());

    escrow.unpause(ADMIN).unwrap();
    escrow.unpause(SIGNER1).unwrap();
    assert!(!escrow.is_paused());

    let escrow_id = escrow.create_hold(LENDER, BORROWER, 7, 5_000_000, START_TIMESTAMP).unwrap();
    let hold = escrow.get_hold(escrow_id).unwrap();
    assert_eq!(hold.status, EscrowStatus::Held);
}

#[test]
fn test_escrow_non_admin_cannot_pause() {
    let mut escrow = setup_with_multisig();
    let result = escrow.pause(Account(999));
    assert_eq!(result, Err(ContractError::NotMultisigAdmin));
    assert_eq!(result.unwrap_err().message(), "Unauthorised: caller is not a multisig admin");
}

// ─── further behaviour ───────────────────────────────────────────────────────

#[test]
fn escrow_ids_are_consecutive() {
    let mut escrow = setup();
    assert_eq!(escrow.create_hold(LENDER, BORROWER, 1, 10, 5).unwrap(), 1);
    assert_eq!(escrow.create_hold(LENDER, BORROWER, 2, 20, 6).unwrap(), 2);
    assert_eq!(escrow.get_escrow_count(), 2);
    let first = escrow.get_hold(1).unwrap();
    assert_eq!(first.amount, 10);
    assert_eq!(first.loan_id, 1);
    assert_eq!(first.expires_at, 185);
}

#[test]
fn escrow_disbursement_event_and_finality() {
    let mut escrow = setup();
    let id = escrow.create_hold(LENDER, BORROWER, 9, 700, 0).unwrap();
    escrow.confirm_disbursement(ADMIN, id, 180).unwrap();
    assert_eq!(
        escrow.events,
        vec![EscrowEvent::Transfer { escrow_id: id, loan_id: 9, borrower: BORROWER, amount: 700 }]
    );
    assert_eq!(escrow.confirm_disbursement(ADMIN, id, 500), Err(ContractError::HoldNotHeld));
    assert_eq!(escrow.revoke_hold(LENDER, id, 10), Err(ContractError::HoldNotHeld));
}

#[test]
fn escrow_error_cases() {
    let mut escrow = setup();
    assert_eq!(escrow.initialize(ADMIN), Err(ContractError::AlreadyInitialised));
    assert_eq!(
        escrow.create_hold(LENDER, BORROWER, 1, 0, 0),
        Err(ContractError::AmountNotPositive)
    );
    assert_eq!(
        escrow.create_hold(LENDER, BORROWER, 1, 5, u64::MAX - 10),
        Err(ContractError::ArithmeticOverflow)
    );
    assert_eq!(escrow.get_hold(7), Err(ContractError::HoldNotFound));
    assert_eq!(escrow.is_within_revocation_window(7, 0), Err(ContractError::HoldNotFound));
    let id = escrow.create_hold(LENDER, BORROWER, 1, 5, 0).unwrap();
    assert_eq!(escrow.revoke_hold(BORROWER, id, 1), Err(ContractError::NotHoldLender));
    assert_eq!(escrow.confirm_disbursement(LENDER, id, 200), Err(ContractError::NotAdmin));
    assert_eq!(escrow.unpause(ADMIN), Err(ContractError::MultisigNotConfigured));
    assert_eq!(
        escrow.setup_multisig(ADMIN, vec![SIGNER1], 0),
        Err(ContractError::ThresholdZero)
    );
    assert_eq!(
        escrow.setup_multisig(ADMIN, vec![SIGNER1], 2),
        Err(ContractError::ThresholdExceedsAdmins)
    );
    assert_eq!(
        escrow.setup_multisig(LENDER, vec![SIGNER1], 1),
        Err(ContractError::NotAdmin)
    );
    let fresh = EscrowContract::new();
    assert_eq!(fresh.get_admin(), Err(ContractError::NotInitialised));
}

#[test]
fn escrow_pause_and_unpause_events() {
    let mut escrow = setup_with_multisig();
    escrow.pause(ADMIN).unwrap();
    assert!(escrow.events.is_empty());
    assert_eq!(escrow.get_pause_signer_count(), 1);
    escrow.pause(SIGNER1).unwrap();
    assert_eq!(escrow.events, vec![EscrowEvent::Paused]);
    assert_eq!(escrow.pause(ADMIN), Err(ContractError::AlreadyPaused));
    escrow.unpause(SIGNER1).unwrap();
    assert_eq!(escrow.unpause(SIGNER1), Err(ContractError::DuplicateUnpauseSigner));
    escrow.unpause(ADMIN).unwrap();
    assert_eq!(escrow.events, vec![EscrowEvent::Unpaused]);
    // votes are never withdrawn: the same signers cannot pause again
    assert_eq!(escrow.pause(ADMIN), Err(ContractError::DuplicatePauseSigner));
}

#[test]
fn escrow_setup_adds_calling_admin() {
    let mut escrow = setup();
    escrow.setup_multisig(ADMIN, vec![SIGNER1], 1).unwrap();
    assert_eq!(escrow.get_multisig_admins(), vec![SIGNER1, ADMIN]);
    // a multisig admin counts as admin for disbursements
    let id = escrow.create_hold(LENDER, BORROWER, 3, 50, 0).unwrap();
    escrow.confirm_disbursement(SIGNER1, id, 180).unwrap();
}
