//! The ways a contract operation can be refused.
use vstd::prelude::*;

verus! {

/// Why a contract operation was refused. A refused operation changes
/// nothing; the host aborts the transaction with `message()`.
#[derive(Debug, Clone, Copy, PartialEq, Eq, Structural)]
pub enum ContractError {
    AlreadyInitialised,
    NotInitialised,
    NotAdmin,
    MultisigNotConfigured,
    NotMultisigAdmin,
    ThresholdZero,
    ThresholdExceedsAdmins,
    AlreadyPaused,
    NotPaused,
    DuplicatePauseSigner,
    DuplicateUnpauseSigner,
    Paused,
    ArithmeticOverflow,
    MultisigAdminAlreadyConfigured,
    MultisigAdminNotConfigured,
    DefaultRecordNotFound,
    InsufficientInsuranceFunds,
    InsuranceEventNotFound,
    AmountNotPositive,
    HoldNotFound,
    NotHoldLender,
    HoldNotHeld,
    RevocationWindowExpired,
    RevocationWindowOpen,
    VaultAlreadyInitialised,
    VaultNotInitialised,
    HarvestFeeTooHigh,
    DepositNotPositive,
    ZeroSharesMinted,
    SharesNotPositive,
    InsufficientShares,
    ZeroPayout,
    YieldNotPositive,
    NoActiveDeposits,
    UnauthorisedCaller,
}

/// The text a refused operation aborts with.
pub open spec fn spec_message(e: ContractError) -> Seq<char> {
    match e {
        ContractError::AlreadyInitialised => "Contract already initialised"@,
        ContractError::NotInitialised => "Contract not initialised"@,
        ContractError::NotAdmin => "Unauthorised: caller is not admin"@,
        ContractError::MultisigNotConfigured => "Multisig not configured"@,
        ContractError::NotMultisigAdmin => "Unauthorised: caller is not a multisig admin"@,
        ContractError::ThresholdZero => "Threshold must be at least 1"@,
        ContractError::ThresholdExceedsAdmins => "Threshold exceeds number of admins"@,
        ContractError::AlreadyPaused => "Contract is already paused"@,
        ContractError::NotPaused => "Contract is not paused"@,
        ContractError::DuplicatePauseSigner => "Signer has already authorised pause"@,
        ContractError::DuplicateUnpauseSigner => "Signer has already authorised unpause"@,
        ContractError::Paused => "Contract is paused"@,
        ContractError::ArithmeticOverflow => "Arithmetic overflow"@,
        ContractError::MultisigAdminAlreadyConfigured => "Multisig admin already configured"@,
        ContractError::MultisigAdminNotConfigured => "Multisig admin not configured"@,
        ContractError::DefaultRecordNotFound => "Default record not found"@,
        ContractError::InsufficientInsuranceFunds => "Insufficient insurance funds"@,
        ContractError::InsuranceEventNotFound => "Insurance event not found"@,
        ContractError::AmountNotPositive => "Amount must be positive"@,
        ContractError::HoldNotFound => "Escrow hold not found"@,
        ContractError::NotHoldLender => "Only the lender can revoke"@,
        ContractError::HoldNotHeld => "Hold is not in HELD state"@,
        ContractError::RevocationWindowExpired => "Revocation window has expired"@,
        ContractError::RevocationWindowOpen => "Revocation window has not expired yet"@,
        ContractError::VaultAlreadyInitialised => "Vault already initialised"@,
        ContractError::VaultNotInitialised => "Vault not initialised"@,
        ContractError::HarvestFeeTooHigh => "Harvest fee exceeds max limit"@,
        ContractError::DepositNotPositive => "Deposit amount must be positive"@,
        ContractError::ZeroSharesMinted => "Deposit yielded zero shares"@,
        ContractError::SharesNotPositive => "Share count must be positive"@,
        ContractError::InsufficientShares => "Insufficient shares balance"@,
        ContractError::ZeroPayout => "Shares yield zero asset payout"@,
        ContractError::YieldNotPositive => "Yield amount must be positive"@,
        ContractError::NoActiveDeposits => "No active deposits in vault"@,
        ContractError::UnauthorisedCaller => "Unauthorised caller"@,
    }
}

impl ContractError {
    /// The text a refused operation aborts with.
    pub fn message(&self) -> (result: &'static str)
        ensures
            result@ == spec_message(*self),
    {
        match self {
            ContractError::AlreadyInitialised => "Contract already initialised",
            ContractError::NotInitialised => "Contract not initialised",
            ContractError::NotAdmin => "Unauthorised: caller is not admin",
            ContractError::MultisigNotConfigured => "Multisig not configured",
            ContractError::NotMultisigAdmin => "Unauthorised: caller is not a multisig admin",
            ContractError::ThresholdZero => "Threshold must be at least 1",
            ContractError::ThresholdExceedsAdmins => "Threshold exceeds number of admins",
            ContractError::AlreadyPaused => "Contract is already paused",
            ContractError::NotPaused => "Contract is not paused",
            ContractError::DuplicatePauseSigner => "Signer has already authorised pause",
            ContractError::DuplicateUnpauseSigner => "Signer has already authorised unpause",
            ContractError::Paused => "Contract is paused",
            ContractError::ArithmeticOverflow => "Arithmetic overflow",
            ContractError::MultisigAdminAlreadyConfigured => "Multisig admin already configured",
            ContractError::MultisigAdminNotConfigured => "Multisig admin not configured",
            ContractError::DefaultRecordNotFound => "Default record not found",
            ContractError::InsufficientInsuranceFunds => "Insufficient insurance funds",
            ContractError::InsuranceEventNotFound => "Insurance event not found",
            ContractError::AmountNotPositive => "Amount must be positive",
            ContractError::HoldNotFound => "Escrow hold not found",
            ContractError::NotHoldLender => "Only the lender can revoke",
            ContractError::HoldNotHeld => "Hold is not in HELD state",
            ContractError::RevocationWindowExpired => "Revocation window has expired",
            ContractError::RevocationWindowOpen => "Revocation window has not expired yet",
            ContractError::VaultAlreadyInitialised => "Vault already initialised",
            ContractError::VaultNotInitialised => "Vault not initialised",
            ContractError::HarvestFeeTooHigh => "Harvest fee exceeds max limit",
            ContractError::DepositNotPositive => "Deposit amount must be positive",
            ContractError::ZeroSharesMinted => "Deposit yielded zero shares",
            ContractError::SharesNotPositive => "Share count must be positive",
            ContractError::InsufficientShares => "Insufficient shares balance",
            ContractError::ZeroPayout => "Shares yield zero asset payout",
            ContractError::YieldNotPositive => "Yield amount must be positive",
            ContractError::NoActiveDeposits => "No active deposits in vault",
            ContractError::UnauthorisedCaller => "Unauthorised caller",
        }
    }
}

} // verus!
