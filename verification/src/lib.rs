//! Verified core logic of the TrustLend protocol: loan and fee arithmetic,
//! the loan state machine, flash-loan accounting, and the decision logic of
//! the auto-compounding vault, default-management and escrow contracts.
//!
//! Each contract is modelled as its ledger state plus operations that either
//! refuse with a `ContractError` (changing nothing) or return the new state
//! together with the token transfers and events the host must carry out.

pub mod arith;
pub mod errors;
pub mod access;
pub mod escrow;
pub mod default_management;
pub mod vault;
pub mod lending_math;
pub mod lending_laws;
pub mod flash_loan;
pub mod loan_lifecycle;
pub mod loan_accounting;
