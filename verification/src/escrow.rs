//! Escrow commitments between lenders and borrowers: a hold can be revoked
//! by its lender during a three-minute window and disbursed by an admin
//! afterwards.
use vstd::prelude::*;

use std::collections::HashMap;

use crate::access::{
    check_admin, initial_guard, spec_check_admin, spec_pause, spec_setup, spec_unpause, Account,
    PauseGuard, PauseGuardView,
};
use crate::errors::ContractError;

verus! {

broadcast use vstd::std_specs::hash::group_hash_axioms;

/// Seconds after creation during which the lender may revoke a hold.
pub const REVOCATION_WINDOW_SECONDS: u64 = 180;

/// Where an escrow hold stands.
#[derive(Debug, Clone, Copy, PartialEq, Eq, Structural)]
pub enum EscrowStatus {
    Held,
    Transferred,
    Revoked,
}

/// A single escrow commitment. The funds themselves move through separate
/// ledger payments; the hold records the intent and the timing rules.
#[derive(Debug, Clone, Copy, PartialEq, Eq, Structural)]
pub struct EscrowHold {
    pub id: u32,
    pub loan_id: u32,
    pub lender: Account,
    pub borrower: Account,
    /// Amount in stroops.
    pub amount: i128,
    /// Ledger timestamp when the hold was created.
    pub held_at: u64,
    /// `held_at + 180`: the end of the revocation window.
    pub expires_at: u64,
    pub status: EscrowStatus,
}

/// An event the escrow contract publishes.
#[derive(Debug, Clone, Copy, PartialEq, Eq, Structural)]
pub enum EscrowEvent {
    /// `("escrow", "deposit")`: a hold was created.
    Deposit { lender: Account, loan_id: u32, amount: i128 },
    /// `("escrow", "withdraw")`: a hold was revoked.
    Withdraw { lender: Account, loan_id: u32, amount: i128 },
    /// `("escrow", "transfer")`: a hold was disbursed to the borrower.
    Transfer { escrow_id: u32, loan_id: u32, borrower: Account, amount: i128 },
    /// `("escrow", "paused")`.
    Paused,
    /// `("escrow", "unpaused")`.
    Unpaused,
}

/// The escrow contract's ledger state.
pub struct EscrowContract {
    pub admin: Option<Account>,
    /// Number of holds created; the latest hold's id.
    pub escrow_count: u32,
    pub holds: HashMap<u32, EscrowHold>,
    pub guard: PauseGuard,
    /// Events published by the latest successful operation.
    pub events: Vec<EscrowEvent>,
}

/// The mathematical content of an `EscrowContract`.
pub struct EscrowView {
    pub admin: Option<Account>,
    pub escrow_count: u32,
    pub holds: Map<u32, EscrowHold>,
    pub guard: PauseGuardView,
    pub events: Seq<EscrowEvent>,
}

impl View for EscrowContract {
    type V = EscrowView;

    open spec fn view(&self) -> EscrowView {
        EscrowView {
            admin: self.admin,
            escrow_count: self.escrow_count,
            holds: self.holds@,
            guard: self.guard@,
            events: self.events@,
        }
    }
}

/// Every stored hold has an id between 1 and the hold count, stored under
/// that id.
pub open spec fn escrow_wf(s: EscrowView) -> bool {
    forall|id: u32| #[trigger]
        s.holds.contains_key(id) ==> 1 <= id <= s.escrow_count && s.holds[id].id == id
}

/// Initialises the contract with `admin`.
pub open spec fn spec_initialize(s: EscrowView, admin: Account) -> Result<EscrowView, ContractError> {
    if s.admin is Some {
        Err(ContractError::AlreadyInitialised)
    } else {
        Ok(EscrowView { admin: Some(admin), escrow_count: 0, events: Seq::empty(), ..s })
    }
}

/// Configures the multisig admins (admin only).
pub open spec fn spec_setup_multisig(
    s: EscrowView,
    admin: Account,
    admins: Seq<Account>,
    threshold: u32,
) -> Result<EscrowView, ContractError> {
    match spec_check_admin(s.guard.admins, s.admin, admin) {
        Err(e) => Err(e),
        Ok(()) => match spec_setup(s.guard, admin, admins, threshold) {
            Err(e) => Err(e),
            Ok(g) => Ok(EscrowView { guard: g, events: Seq::empty(), ..s }),
        },
    }
}

/// A pause vote; the vote that pauses the contract publishes `Paused`.
pub open spec fn spec_escrow_pause(s: EscrowView, caller: Account) -> Result<EscrowView, ContractError> {
    match spec_pause(s.guard, caller) {
        Err(e) => Err(e),
        Ok((took_effect, g)) => Ok(
            EscrowView {
                guard: g,
                events: if took_effect {
                    seq![EscrowEvent::Paused]
                } else {
                    Seq::empty()
                },
                ..s
            },
        ),
    }
}

/// An unpause vote; the vote that unpauses the contract publishes
/// `Unpaused`.
pub open spec fn spec_escrow_unpause(s: EscrowView, caller: Account) -> Result<EscrowView, ContractError> {
    match spec_unpause(s.guard, caller) {
        Err(e) => Err(e),
        Ok((took_effect, g)) => Ok(
            EscrowView {
                guard: g,
                events: if took_effect {
                    seq![EscrowEvent::Unpaused]
                } else {
                    Seq::empty()
                },
                ..s
            },
        ),
    }
}

/// Registers a hold of `amount` from `lender` for `borrower` at time `now`:
/// refused while paused or for a non-positive amount; the hold gets the next
/// id, expires 180 seconds later, and a `Deposit` event is published.
pub open spec fn spec_create_hold(
    s: EscrowView,
    lender: Account,
    borrower: Account,
    loan_id: u32,
    amount: i128,
    now: u64,
) -> Result<(u32, EscrowView), ContractError> {
    if s.guard.paused {
        Err(ContractError::Paused)
    } else if amount <= 0 {
        Err(ContractError::AmountNotPositive)
    } else if s.escrow_count + 1 > u32::MAX || now + 180 > u64::MAX {
        Err(ContractError::ArithmeticOverflow)
    } else {
        let new_id = (s.escrow_count + 1) as u32;
        let hold = EscrowHold {
            id: new_id,
            loan_id,
            lender,
            borrower,
            amount,
            held_at: now,
            expires_at: (now + 180) as u64,
            status: EscrowStatus::Held,
        };
        Ok(
            (
                new_id,
                EscrowView {
                    holds: s.holds.insert(new_id, hold),
                    escrow_count: new_id,
                    events: seq![EscrowEvent::Deposit { lender, loan_id, amount }],
                    ..s
                },
            ),
        )
    }
}

/// The hold stored under `escrow_id`.
pub open spec fn spec_hold(s: EscrowView, escrow_id: u32) -> Result<EscrowHold, ContractError> {
    if s.holds.contains_key(escrow_id) {
        Ok(s.holds[escrow_id])
    } else {
        Err(ContractError::HoldNotFound)
    }
}

/// Whether the revocation window of hold `escrow_id` is still open at `now`.
pub open spec fn spec_within_window(s: EscrowView, escrow_id: u32, now: u64) -> Result<
    bool,
    ContractError,
> {
    match spec_hold(s, escrow_id) {
        Err(e) => Err(e),
        Ok(h) => Ok(now < h.expires_at),
    }
}

/// The lender revokes a held hold before its window closes; publishes
/// `Withdraw`. Allowed while paused.
pub open spec fn spec_revoke_hold(s: EscrowView, lender: Account, escrow_id: u32, now: u64) -> Result<
    EscrowView,
    ContractError,
> {
    match spec_hold(s, escrow_id) {
        Err(e) => Err(e),
        Ok(h) => if h.lender != lender {
            Err(ContractError::NotHoldLender)
        } else if h.status != EscrowStatus::Held {
            Err(ContractError::HoldNotHeld)
        } else if now >= h.expires_at {
            Err(ContractError::RevocationWindowExpired)
        } else {
            Ok(
                EscrowView {
                    holds: s.holds.insert(
                        escrow_id,
                        EscrowHold { status: EscrowStatus::Revoked, ..h },
                    ),
                    events: seq![
                        EscrowEvent::Withdraw { lender, loan_id: h.loan_id, amount: h.amount },
                    ],
                    ..s
                },
            )
        },
    }
}

/// An admin marks a held hold as disbursed once its window has closed;
/// publishes `Transfer`. Refused while paused.
pub open spec fn spec_confirm_disbursement(
    s: EscrowView,
    caller: Account,
    escrow_id: u32,
    now: u64,
) -> Result<EscrowView, ContractError> {
    match spec_check_admin(s.guard.admins, s.admin, caller) {
        Err(e) => Err(e),
        Ok(()) => if s.guard.paused {
            Err(ContractError::Paused)
        } else {
            match spec_hold(s, escrow_id) {
                Err(e) => Err(e),
                Ok(h) => if h.status != EscrowStatus::Held {
                    Err(ContractError::HoldNotHeld)
                } else if now < h.expires_at {
                    Err(ContractError::RevocationWindowOpen)
                } else {
                    Ok(
                        EscrowView {
                            holds: s.holds.insert(
                                escrow_id,
                                EscrowHold { status: EscrowStatus::Transferred, ..h },
                            ),
                            events: seq![
                                EscrowEvent::Transfer {
                                    escrow_id,
                                    loan_id: h.loan_id,
                                    borrower: h.borrower,
                                    amount: h.amount,
                                },
                            ],
                            ..s
                        },
                    )
                },
            }
        },
    }
}

impl EscrowContract {
    /// A contract with empty storage.
    pub fn new() -> (result: EscrowContract)
        ensures
            result@.admin is None,
            result@.escrow_count == 0,
            result@.holds == Map::<u32, EscrowHold>::empty(),
            result@.guard == initial_guard(),
            result@.events == Seq::<EscrowEvent>::empty(),
            escrow_wf(result@),
    {
        EscrowContract {
            admin: None,
            escrow_count: 0,
            holds: HashMap::new(),
            guard: PauseGuard::new(),
            events: Vec::new(),
        }
    }

    /// Sets the admin; refused when the contract is already initialised.
    pub fn initialize(&mut self, admin: Account) -> (result: Result<(), ContractError>)
        ensures
            spec_initialize(old(self)@, admin) == match result {
                Ok(()) => Ok(final(self)@),
                Err(e) => Err(e),
            },
            result is Err ==> final(self)@ == old(self)@,
    {
        if self.admin.is_some() {
            return Err(ContractError::AlreadyInitialised);
        }
        self.admin = Some(admin);
        self.escrow_count = 0;
        self.events = Vec::new();
        Ok(())
    }

    /// Configures the multisig admin set for pause/unpause (admin only).
    pub fn setup_multisig(&mut self, admin: Account, admins: Vec<Account>, threshold: u32) -> (result:
        Result<(), ContractError>)
        ensures
            spec_setup_multisig(old(self)@, admin, admins@, threshold) == match result {
                Ok(()) => Ok(final(self)@),
                Err(e) => Err(e),
            },
            result is Err ==> final(self)@ == old(self)@,
    {
        check_admin(&self.guard.admins, self.admin, admin)?;
        self.guard.setup(admin, admins, threshold)?;
        self.events = Vec::new();
        Ok(())
    }

    /// A multisig admin's vote to pause the contract.
    pub fn pause(&mut self, caller: Account) -> (result: Result<(), ContractError>)
        ensures
            spec_escrow_pause(old(self)@, caller) == match result {
                Ok(()) => Ok(final(self)@),
                Err(e) => Err(e),
            },
            result is Err ==> final(self)@ == old(self)@,
    {
        let took_effect = self.guard.pause(caller)?;
        self.events = Vec::new();
        if took_effect {
            self.events.push(EscrowEvent::Paused);
        }
        Ok(())
    }

    /// A multisig admin's vote to unpause the contract.
    pub fn unpause(&mut self, caller: Account) -> (result: Result<(), ContractError>)
        ensures
            spec_escrow_unpause(old(self)@, caller) == match result {
                Ok(()) => Ok(final(self)@),
                Err(e) => Err(e),
            },
            result is Err ==> final(self)@ == old(self)@,
    {
        let took_effect = self.guard.unpause(caller)?;
        self.events = Vec::new();
        if took_effect {
            self.events.push(EscrowEvent::Unpaused);
        }
        Ok(())
    }

    /// Whether the contract is paused.
    pub fn is_paused(&self) -> (result: bool)
        ensures
            result == self@.guard.paused,
    {
        self.guard.paused
    }

    /// The multisig admins.
    pub fn get_multisig_admins(&self) -> (result: Vec<Account>)
        ensures
            result@ == self@.guard.admins,
    {
        self.guard.admins.clone()
    }

    /// Votes needed to pause or unpause.
    pub fn get_multisig_threshold(&self) -> (result: u32)
        ensures
            result == self@.guard.threshold,
    {
        self.guard.threshold
    }

    /// Pause votes since the contract was last paused.
    pub fn get_pause_signer_count(&self) -> (result: u32)
        ensures
            result == self@.guard.pause_count,
    {
        self.guard.pause_count
    }

    /// The admin; `NotInitialised` before initialisation.
    pub fn get_admin(&self) -> (result: Result<Account, ContractError>)
        ensures
            result == match self@.admin {
                Some(a) => Ok(a),
                None => Err(ContractError::NotInitialised),
            },
    {
        match self.admin {
            Some(a) => Ok(a),
            None => Err(ContractError::NotInitialised),
        }
    }

    /// Registers an escrow commitment once the lender has sent the payment;
    /// returns the new hold's id. `now` is the ledger timestamp.
    pub fn create_hold(
        &mut self,
        lender: Account,
        borrower: Account,
        loan_id: u32,
        amount: i128,
        now: u64,
    ) -> (result: Result<u32, ContractError>)
        ensures
            spec_create_hold(old(self)@, lender, borrower, loan_id, amount, now) == match result {
                Ok(id) => Ok((id, final(self)@)),
                Err(e) => Err(e),
            },
            result is Err ==> final(self)@ == old(self)@,
            escrow_wf(old(self)@) ==> escrow_wf(final(self)@),
    {
        self.guard.check_not_paused()?;
        if amount <= 0 {
            return Err(ContractError::AmountNotPositive);
        }
        let new_id = match self.escrow_count.checked_add(1) {
            Some(id) => id,
            None => return Err(ContractError::ArithmeticOverflow),
        };
        let expires_at = match now.checked_add(REVOCATION_WINDOW_SECONDS) {
            Some(t) => t,
            None => return Err(ContractError::ArithmeticOverflow),
        };
        let hold = EscrowHold {
            id: new_id,
            loan_id,
            lender,
            borrower,
            amount,
            held_at: now,
            expires_at,
            status: EscrowStatus::Held,
        };
        self.holds.insert(new_id, hold);
        self.escrow_count = new_id;
        self.events = Vec::new();
        self.events.push(EscrowEvent::Deposit { lender, loan_id, amount });
        Ok(new_id)
    }

    /// The hold stored under `escrow_id`; `HoldNotFound` when there is none.
    fn load_hold(&self, escrow_id: u32) -> (result: Result<EscrowHold, ContractError>)
        ensures
            result == spec_hold(self@, escrow_id),
    {
        match self.holds.get(&escrow_id) {
            Some(h) => Ok(*h),
            None => Err(ContractError::HoldNotFound),
        }
    }

    /// Whether the three-minute revocation window of a hold is still open
    /// at ledger time `now`.
    pub fn is_within_revocation_window(&self, escrow_id: u32, now: u64) -> (result: Result<
        bool,
        ContractError,
    >)
        ensures
            result == spec_within_window(self@, escrow_id, now),
    {
        let hold = self.load_hold(escrow_id)?;
        Ok(now < hold.expires_at)
    }

    /// The lender revokes a hold before its window closes. The refund itself
    /// is a separate payment by the platform.
    pub fn revoke_hold(&mut self, lender: Account, escrow_id: u32, now: u64) -> (result: Result<
        (),
        ContractError,
    >)
        ensures
            spec_revoke_hold(old(self)@, lender, escrow_id, now) == match result {
                Ok(()) => Ok(final(self)@),
                Err(e) => Err(e),
            },
            result is Err ==> final(self)@ == old(self)@,
            escrow_wf(old(self)@) ==> escrow_wf(final(self)@),
    {
        let mut hold = self.load_hold(escrow_id)?;
        if hold.lender != lender {
            return Err(ContractError::NotHoldLender);
        }
        if hold.status != EscrowStatus::Held {
            return Err(ContractError::HoldNotHeld);
        }
        if now >= hold.expires_at {
            return Err(ContractError::RevocationWindowExpired);
        }
        hold.status = EscrowStatus::Revoked;
        self.holds.insert(escrow_id, hold);
        self.events = Vec::new();
        self.events.push(EscrowEvent::Withdraw { lender, loan_id: hold.loan_id, amount: hold.amount });
        Ok(())
    }

    /// An admin marks a hold as disbursed once the payment to the borrower
    /// is confirmed and the revocation window has closed.
    pub fn confirm_disbursement(&mut self, caller: Account, escrow_id: u32, now: u64) -> (result:
        Result<(), ContractError>)
        ensures
            spec_confirm_disbursement(old(self)@, caller, escrow_id, now) == match result {
                Ok(()) => Ok(final(self)@),
                Err(e) => Err(e),
            },
            result is Err ==> final(self)@ == old(self)@,
            escrow_wf(old(self)@) ==> escrow_wf(final(self)@),
    {
        check_admin(&self.guard.admins, self.admin, caller)?;
        self.guard.check_not_paused()?;
        let mut hold = self.load_hold(escrow_id)?;
        if hold.status != EscrowStatus::Held {
            return Err(ContractError::HoldNotHeld);
        }
        if now < hold.expires_at {
            return Err(ContractError::RevocationWindowOpen);
        }
        hold.status = EscrowStatus::Transferred;
        self.holds.insert(escrow_id, hold);
        self.events = Vec::new();
        self.events.push(
            EscrowEvent::Transfer {
                escrow_id,
                loan_id: hold.loan_id,
                borrower: hold.borrower,
                amount: hold.amount,
            },
        );
        Ok(())
    }

    /// The hold stored under `escrow_id`.
    pub fn get_hold(&self, escrow_id: u32) -> (result: Result<EscrowHold, ContractError>)
        ensures
            result == spec_hold(self@, escrow_id),
    {
        self.load_hold(escrow_id)
    }

    /// Number of holds created so far.
    pub fn get_escrow_count(&self) -> (result: u32)
        ensures
            result == self@.escrow_count,
    {
        self.escrow_count
    }
}

/// A hold can be revoked or disbursed, never both: at any moment the
/// lender's revocation (before expiry) and the admin's disbursement (from
/// expiry on) cannot both be accepted.
pub proof fn revocation_and_disbursement_exclusive(
    s: EscrowView,
    lender: Account,
    caller: Account,
    escrow_id: u32,
    now: u64,
)
    ensures
        !(spec_revoke_hold(s, lender, escrow_id, now) is Ok && spec_confirm_disbursement(
            s,
            caller,
            escrow_id,
            now,
        ) is Ok),
{
}

/// Once a hold has been revoked or disbursed it can be neither revoked nor
/// disbursed again.
pub proof fn settled_holds_are_final(
    s: EscrowView,
    lender: Account,
    caller: Account,
    escrow_id: u32,
    now: u64,
)
    requires
        spec_hold(s, escrow_id) matches Ok(h) && h.status != EscrowStatus::Held,
    ensures
        spec_revoke_hold(s, lender, escrow_id, now) is Err,
        spec_confirm_disbursement(s, caller, escrow_id, now) is Err,
{
}

/// A new hold gets the next id, is held, and its revocation window is open
/// exactly during the 180 seconds that follow its creation.
pub proof fn new_hold_window_lasts_180_seconds(
    s: EscrowView,
    lender: Account,
    borrower: Account,
    loan_id: u32,
    amount: i128,
    now: u64,
    later: u64,
)
    requires
        spec_create_hold(s, lender, borrower, loan_id, amount, now) is Ok,
    ensures
        ({
            let (id, s1) = spec_create_hold(s, lender, borrower, loan_id, amount, now)->Ok_0;
            &&& id == s.escrow_count + 1
            &&& spec_hold(s1, id) matches Ok(h) && h.status == EscrowStatus::Held && h.lender
                == lender && h.borrower == borrower && h.amount == amount && h.held_at == now
            &&& spec_within_window(s1, id, later) == Ok::<bool, ContractError>(later < now + 180)
        }),
{
}

/// While the contract is paused, creating holds and disbursing them are
/// refused, whereas a lender's revocation is decided exactly as if the
/// contract were running.
pub proof fn pause_blocks_creation_and_disbursement(
    s: EscrowView,
    lender: Account,
    borrower: Account,
    caller: Account,
    loan_id: u32,
    escrow_id: u32,
    amount: i128,
    now: u64,
)
    requires
        s.guard.paused,
    ensures
        spec_create_hold(s, lender, borrower, loan_id, amount, now) == Err::<
            (u32, EscrowView),
            ContractError,
        >(ContractError::Paused),
        spec_check_admin(s.guard.admins, s.admin, caller) is Ok ==> spec_confirm_disbursement(
            s,
            caller,
            escrow_id,
            now,
        ) == Err::<EscrowView, ContractError>(ContractError::Paused),
        ({
            let running = EscrowView { guard: PauseGuardView { paused: false, ..s.guard }, ..s };
            match (
                spec_revoke_hold(s, lender, escrow_id, now),
                spec_revoke_hold(running, lender, escrow_id, now),
            ) {
                (Ok(a), Ok(b)) => a.holds == b.holds && a.events == b.events,
                (Err(a), Err(b)) => a == b,
                _ => false,
            }
        }),
{
}

/// Creating a hold never overwrites an earlier one: in a well-formed
/// contract every hold stored before is stored unchanged afterwards.
pub proof fn create_hold_keeps_existing_holds(
    s: EscrowView,
    lender: Account,
    borrower: Account,
    loan_id: u32,
    amount: i128,
    now: u64,
    other: u32,
)
    requires
        escrow_wf(s),
        s.holds.contains_key(other),
        spec_create_hold(s, lender, borrower, loan_id, amount, now) is Ok,
    ensures
        ({
            let (_, s1) = spec_create_hold(s, lender, borrower, loan_id, amount, now)->Ok_0;
            s1.holds.contains_key(other) && s1.holds[other] == s.holds[other]
        }),
{
}

/// The life of a hold, accepted at every step: while the contract runs, a
/// positive hold is registered under the next id; the lender can then
/// revoke it at any moment before 180 seconds have passed, and an admin can
/// disburse it at any moment from then on.
pub proof fn hold_lifecycle_accepted(
    s: EscrowView,
    lender: Account,
    borrower: Account,
    admin: Account,
    loan_id: u32,
    amount: i128,
    now: u64,
    later: u64,
)
    requires
        !s.guard.paused,
        amount > 0,
        s.escrow_count < u32::MAX,
        now + 180 <= u64::MAX,
        s.guard.admins.contains(admin) || s.admin == Some(admin),
    ensures
        spec_create_hold(s, lender, borrower, loan_id, amount, now) matches Ok((id, s1)) && {
            &&& id == s.escrow_count + 1
            &&& later < now + 180 ==> (spec_revoke_hold(s1, lender, id, later) matches Ok(s2)
                && s2.holds[id].status == EscrowStatus::Revoked)
            &&& later >= now + 180 ==> (spec_confirm_disbursement(s1, admin, id, later) matches Ok(
                s2,
            ) && s2.holds[id].status == EscrowStatus::Transferred)
        },
{
}

} // verus!
