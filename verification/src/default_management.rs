//! Default escalation for overdue loans and the insurance fund that pays
//! lenders of defaulted loans.
use vstd::prelude::*;

use std::collections::HashMap;

use crate::access::{
    check_admin, initial_guard, spec_check_admin, spec_check_multisig_admin, spec_pause, spec_setup,
    spec_unpause, Account, PauseGuard, PauseGuardView,
};
use crate::arith::fits_i128;
use crate::errors::ContractError;

verus! {

broadcast use vstd::std_specs::hash::group_hash_axioms;

/// Enforcement phase of an overdue loan.
#[derive(Debug, Clone, Copy, PartialEq, Eq, Structural)]
pub enum DefaultPhase {
    /// Days 1-7: friendly reminders, no penalty yet.
    Friendly,
    /// Days 8-21: reputation hit, blacklisted from new loans.
    Warning,
    /// Days 22-60: wallet frozen, platform enforcement.
    Enforcement,
    /// Beyond 60 days: reported; insurance and collection triggered.
    Reported,
}

/// The default record of one loan.
#[derive(Debug, Clone, Copy, PartialEq, Eq, Structural)]
pub struct DefaultRecord {
    pub loan_id: u32,
    pub borrower: Account,
    /// Principal amount in stroops.
    pub amount: i128,
    /// Ledger timestamp when this record was written.
    pub recorded_at: u64,
    pub days_overdue: u64,
    pub phase: DefaultPhase,
}

/// One payout from the insurance fund.
#[derive(Debug, Clone, Copy, PartialEq, Eq, Structural)]
pub struct InsuranceEvent {
    pub loan_id: u32,
    pub lender: Account,
    pub amount_paid: i128,
    pub paid_at: u64,
}

/// An event the default-management contract publishes.
#[derive(Debug, Clone, Copy, PartialEq, Eq, Structural)]
pub enum DefaultManagementEvent {
    /// `("defmgmt", "paused")`.
    Paused,
    /// `("defmgmt", "unpaused")`.
    Unpaused,
}

/// The default-management contract's ledger state.
pub struct DefaultManagementContract {
    pub admin: Option<Account>,
    /// The multisig contract linked once by the admin.
    pub multisig_admin: Option<Account>,
    /// Insurance fund balance in stroops.
    pub insurance_balance: i128,
    /// Number of insurance payouts; the latest payout's index.
    pub insurance_event_count: u32,
    pub default_records: HashMap<u32, DefaultRecord>,
    pub insurance_events: HashMap<u32, InsuranceEvent>,
    pub guard: PauseGuard,
    /// Events published by the latest successful operation.
    pub events: Vec<DefaultManagementEvent>,
}

/// The mathematical content of a `DefaultManagementContract`.
pub struct DefaultManagementView {
    pub admin: Option<Account>,
    pub multisig_admin: Option<Account>,
    pub insurance_balance: i128,
    pub insurance_event_count: u32,
    pub default_records: Map<u32, DefaultRecord>,
    pub insurance_events: Map<u32, InsuranceEvent>,
    pub guard: PauseGuardView,
    pub events: Seq<DefaultManagementEvent>,
}

impl View for DefaultManagementContract {
    type V = DefaultManagementView;

    open spec fn view(&self) -> DefaultManagementView {
        DefaultManagementView {
            admin: self.admin,
            multisig_admin: self.multisig_admin,
            insurance_balance: self.insurance_balance,
            insurance_event_count: self.insurance_event_count,
            default_records: self.default_records@,
            insurance_events: self.insurance_events@,
            guard: self.guard@,
            events: self.events@,
        }
    }
}

/// The phase of a loan `days` days overdue: 1-7 friendly, 8-21 warning,
/// 22-60 enforcement, anything else (including 0) reported.
pub open spec fn spec_days_to_phase(days: u64) -> DefaultPhase {
    if 1 <= days <= 7 {
        DefaultPhase::Friendly
    } else if 8 <= days <= 21 {
        DefaultPhase::Warning
    } else if 22 <= days <= 60 {
        DefaultPhase::Enforcement
    } else {
        DefaultPhase::Reported
    }
}

/// How far enforcement has escalated in a phase.
pub open spec fn phase_rank(p: DefaultPhase) -> int {
    match p {
        DefaultPhase::Friendly => 0,
        DefaultPhase::Warning => 1,
        DefaultPhase::Enforcement => 2,
        DefaultPhase::Reported => 3,
    }
}

/// Initialises the contract with `admin` and the fund's opening balance.
pub open spec fn spec_dm_initialize(
    s: DefaultManagementView,
    admin: Account,
    initial_insurance_balance: i128,
) -> Result<DefaultManagementView, ContractError> {
    if s.admin is Some {
        Err(ContractError::AlreadyInitialised)
    } else {
        Ok(
            DefaultManagementView {
                admin: Some(admin),
                insurance_balance: initial_insurance_balance,
                insurance_event_count: 0,
                events: Seq::empty(),
                ..s
            },
        )
    }
}

/// Configures the multisig admins (admin only).
pub open spec fn spec_dm_setup_multisig(
    s: DefaultManagementView,
    admin: Account,
    admins: Seq<Account>,
    threshold: u32,
) -> Result<DefaultManagementView, ContractError> {
    match spec_check_admin(s.guard.admins, s.admin, admin) {
        Err(e) => Err(e),
        Ok(()) => match spec_setup(s.guard, admin, admins, threshold) {
            Err(e) => Err(e),
            Ok(g) => Ok(DefaultManagementView { guard: g, events: Seq::empty(), ..s }),
        },
    }
}

/// A pause vote; the vote that pauses the contract publishes `Paused`.
pub open spec fn spec_dm_pause(s: DefaultManagementView, caller: Account) -> Result<
    DefaultManagementView,
    ContractError,
> {
    match spec_pause(s.guard, caller) {
        Err(e) => Err(e),
        Ok((took_effect, g)) => Ok(
            DefaultManagementView {
                guard: g,
                events: if took_effect {
                    seq![DefaultManagementEvent::Paused]
                } else {
                    Seq::empty()
                },
                ..s
            },
        ),
    }
}

/// An unpause vote; the vote that unpauses the contract publishes
/// `Unpaused`.
pub open spec fn spec_dm_unpause(s: DefaultManagementView, caller: Account) -> Result<
    DefaultManagementView,
    ContractError,
> {
    match spec_unpause(s.guard, caller) {
        Err(e) => Err(e),
        Ok((took_effect, g)) => Ok(
            DefaultManagementView {
                guard: g,
                events: if took_effect {
                    seq![DefaultManagementEvent::Unpaused]
                } else {
                    Seq::empty()
                },
                ..s
            },
        ),
    }
}

/// Links the multisig contract (admin only, once): it becomes the only
/// multisig admin.
pub open spec fn spec_set_multisig_admin(
    s: DefaultManagementView,
    admin: Account,
    multisig: Account,
) -> Result<DefaultManagementView, ContractError> {
    match spec_check_admin(s.guard.admins, s.admin, admin) {
        Err(e) => Err(e),
        Ok(()) => if s.multisig_admin is Some {
            Err(ContractError::MultisigAdminAlreadyConfigured)
        } else {
            Ok(
                DefaultManagementView {
                    multisig_admin: Some(multisig),
                    guard: PauseGuardView { admins: seq![multisig], ..s.guard },
                    events: Seq::empty(),
                    ..s
                },
            )
        },
    }
}

/// Records that loan `loan_id` of `borrower` is `days_overdue` days overdue
/// at time `now` (admin only, refused while paused); returns its phase.
pub open spec fn spec_record_default(
    s: DefaultManagementView,
    caller: Account,
    loan_id: u32,
    borrower: Account,
    amount: i128,
    days_overdue: u64,
    now: u64,
) -> Result<(DefaultPhase, DefaultManagementView), ContractError> {
    match spec_check_admin(s.guard.admins, s.admin, caller) {
        Err(e) => Err(e),
        Ok(()) => if s.guard.paused {
            Err(ContractError::Paused)
        } else {
            let phase = spec_days_to_phase(days_overdue);
            let record = DefaultRecord {
                loan_id,
                borrower,
                amount,
                recorded_at: now,
                days_overdue,
                phase,
            };
            Ok(
                (
                    phase,
                    DefaultManagementView {
                        default_records: s.default_records.insert(loan_id, record),
                        events: Seq::empty(),
                        ..s
                    },
                ),
            )
        },
    }
}

/// The default record of `loan_id`.
pub open spec fn spec_default_record(s: DefaultManagementView, loan_id: u32) -> Result<
    DefaultRecord,
    ContractError,
> {
    if s.default_records.contains_key(loan_id) {
        Ok(s.default_records[loan_id])
    } else {
        Err(ContractError::DefaultRecordNotFound)
    }
}

/// Whether `caller` may move the insurance fund: once a multisig contract
/// is linked, that contract and nobody else (`NotMultisigAdmin` for anyone
/// else); before the link, the outcome `unlinked` of the operation's own
/// check.
pub open spec fn spec_check_fund_mover(
    linked: Option<Account>,
    caller: Account,
    unlinked: Result<(), ContractError>,
) -> Result<(), ContractError> {
    match linked {
        Some(m) => if caller == m {
            Ok(())
        } else {
            Err(ContractError::NotMultisigAdmin)
        },
        None => unlinked,
    }
}

/// Adds `amount` to the insurance fund (allowed while paused). Once the
/// multisig contract is linked only it may do so; before that, the multisig
/// admins may.
pub open spec fn spec_add_to_insurance(s: DefaultManagementView, caller: Account, amount: i128) -> Result<
    DefaultManagementView,
    ContractError,
> {
    match spec_check_fund_mover(s.multisig_admin, caller, spec_check_multisig_admin(s.guard, caller)) {
        Err(e) => Err(e),
        Ok(()) => if !fits_i128(s.insurance_balance + amount) {
            Err(ContractError::ArithmeticOverflow)
        } else {
            Ok(
                DefaultManagementView {
                    insurance_balance: (s.insurance_balance + amount) as i128,
                    events: Seq::empty(),
                    ..s
                },
            )
        },
    }
}

/// Pays `amount` from the fund to `lender` for loan `loan_id` at time `now`
/// (once the multisig contract is linked only it may do so, before that the
/// admin; refused while paused or when the fund is short); the payout is
/// recorded under the next event index.
pub open spec fn spec_trigger_insurance_payout(
    s: DefaultManagementView,
    caller: Account,
    loan_id: u32,
    lender: Account,
    amount: i128,
    now: u64,
) -> Result<DefaultManagementView, ContractError> {
    match spec_check_fund_mover(
        s.multisig_admin,
        caller,
        spec_check_admin(s.guard.admins, s.admin, caller),
    ) {
        Err(e) => Err(e),
        Ok(()) => if s.guard.paused {
            Err(ContractError::Paused)
        } else if s.insurance_balance < amount {
            Err(ContractError::InsufficientInsuranceFunds)
        } else if !fits_i128(s.insurance_balance - amount) || s.insurance_event_count + 1
            > u32::MAX {
            Err(ContractError::ArithmeticOverflow)
        } else {
            let index = (s.insurance_event_count + 1) as u32;
            let event = InsuranceEvent { loan_id, lender, amount_paid: amount, paid_at: now };
            Ok(
                DefaultManagementView {
                    insurance_balance: (s.insurance_balance - amount) as i128,
                    insurance_events: s.insurance_events.insert(index, event),
                    insurance_event_count: index,
                    events: Seq::empty(),
                    ..s
                },
            )
        },
    }
}

/// The insurance payout recorded under `event_index`.
pub open spec fn spec_insurance_event(s: DefaultManagementView, event_index: u32) -> Result<
    InsuranceEvent,
    ContractError,
> {
    if s.insurance_events.contains_key(event_index) {
        Ok(s.insurance_events[event_index])
    } else {
        Err(ContractError::InsuranceEventNotFound)
    }
}

/// Whether `caller` may move the insurance fund (see
/// `spec_check_fund_mover`).
fn check_fund_mover(linked: Option<Account>, caller: Account, unlinked: Result<(), ContractError>) -> (result:
    Result<(), ContractError>)
    ensures
        result == spec_check_fund_mover(linked, caller, unlinked),
{
    match linked {
        Some(m) => if caller == m {
            Ok(())
        } else {
            Err(ContractError::NotMultisigAdmin)
        },
        None => unlinked,
    }
}

impl DefaultManagementContract {
    /// A contract with empty storage.
    pub fn new() -> (result: DefaultManagementContract)
        ensures
            result@.admin is None,
            result@.multisig_admin is None,
            result@.insurance_balance == 0,
            result@.insurance_event_count == 0,
            result@.default_records == Map::<u32, DefaultRecord>::empty(),
            result@.insurance_events == Map::<u32, InsuranceEvent>::empty(),
            result@.guard == initial_guard(),
            result@.events == Seq::<DefaultManagementEvent>::empty(),
    {
        DefaultManagementContract {
            admin: None,
            multisig_admin: None,
            insurance_balance: 0,
            insurance_event_count: 0,
            default_records: HashMap::new(),
            insurance_events: HashMap::new(),
            guard: PauseGuard::new(),
            events: Vec::new(),
        }
    }

    /// Sets the admin and the insurance fund's opening balance; refused
    /// when already initialised.
    pub fn initialize(&mut self, admin: Account, initial_insurance_balance: i128) -> (result: Result<
        (),
        ContractError,
    >)
        ensures
            spec_dm_initialize(old(self)@, admin, initial_insurance_balance) == match result {
                Ok(()) => Ok(final(self)@),
                Err(e) => Err(e),
            },
            result is Err ==> final(self)@ == old(self)@,
    {
        if self.admin.is_some() {
            return Err(ContractError::AlreadyInitialised);
        }
        self.admin = Some(admin);
        self.insurance_balance = initial_insurance_balance;
        self.insurance_event_count = 0;
        self.events = Vec::new();
        Ok(())
    }

    /// Authorises a code upgrade: only an admin may replace the contract's
    /// code (the host then installs the new code, keeping storage).
    pub fn upgrade(&self, caller: Account) -> (result: Result<(), ContractError>)
        ensures
            result == spec_check_admin(self@.guard.admins, self@.admin, caller),
    {
        check_admin(&self.guard.admins, self.admin, caller)
    }

    /// Configures the multisig admin set for pause/unpause (admin only).
    pub fn setup_multisig(&mut self, admin: Account, admins: Vec<Account>, threshold: u32) -> (result:
        Result<(), ContractError>)
        ensures
            spec_dm_setup_multisig(old(self)@, admin, admins@, threshold) == match result {
                Ok(()) => Ok(final(self)@),
                Err(e) => Err(e),
            },
            result is Err ==> final(self)@ == old(self)@,
    {
        check_admin(&self.guard.admins, self.admin, admin)?;
        self.guard.setup(admin, admins, threshold)?;
        self.events = Vec::new();
        Ok(())
    }

    /// A multisig admin's vote to pause the contract.
    pub fn pause(&mut self, caller: Account) -> (result: Result<(), ContractError>)
        ensures
            spec_dm_pause(old(self)@, caller) == match result {
                Ok(()) => Ok(final(self)@),
                Err(e) => Err(e),
            },
            result is Err ==> final(self)@ == old(self)@,
    {
        let took_effect = self.guard.pause(caller)?;
        self.events = Vec::new();
        if took_effect {
            self.events.push(DefaultManagementEvent::Paused);
        }
        Ok(())
    }

    /// A multisig admin's vote to unpause the contract.
    pub fn unpause(&mut self, caller: Account) -> (result: Result<(), ContractError>)
        ensures
            spec_dm_unpause(old(self)@, caller) == match result {
                Ok(()) => Ok(final(self)@),
                Err(e) => Err(e),
            },
            result is Err ==> final(self)@ == old(self)@,
    {
        let took_effect = self.guard.unpause(caller)?;
        self.events = Vec::new();
        if took_effect {
            self.events.push(DefaultManagementEvent::Unpaused);
        }
        Ok(())
    }

    /// Whether the contract is paused.
    pub fn is_paused(&self) -> (result: bool)
        ensures
            result == self@.guard.paused,
    {
        self.guard.paused
    }

    /// The multisig admins.
    pub fn get_multisig_admins(&self) -> (result: Vec<Account>)
        ensures
            result@ == self@.guard.admins,
    {
        self.guard.admins.clone()
    }

    /// Votes needed to pause or unpause.
    pub fn get_multisig_threshold(&self) -> (result: u32)
        ensures
            result == self@.guard.threshold,
    {
        self.guard.threshold
    }

    /// Pause votes since the contract was last paused.
    pub fn get_pause_signer_count(&self) -> (result: u32)
        ensures
            result == self@.guard.pause_count,
    {
        self.guard.pause_count
    }

    /// The admin; `NotInitialised` before initialisation.
    pub fn get_admin(&self) -> (result: Result<Account, ContractError>)
        ensures
            result == match self@.admin {
                Some(a) => Ok(a),
                None => Err(ContractError::NotInitialised),
            },
    {
        match self.admin {
            Some(a) => Ok(a),
            None => Err(ContractError::NotInitialised),
        }
    }

    /// One-time link to the multisig contract (admin only). Afterwards the
    /// multisig is the only account that can move money into the insurance
    /// fund, and the only multisig admin for pausing.
    pub fn set_multisig_admin(&mut self, admin: Account, multisig: Account) -> (result: Result<
        (),
        ContractError,
    >)
        ensures
            spec_set_multisig_admin(old(self)@, admin, multisig) == match result {
                Ok(()) => Ok(final(self)@),
                Err(e) => Err(e),
            },
            result is Err ==> final(self)@ == old(self)@,
    {
        check_admin(&self.guard.admins, self.admin, admin)?;
        if self.multisig_admin.is_some() {
            return Err(ContractError::MultisigAdminAlreadyConfigured);
        }
        self.multisig_admin = Some(multisig);
        let mut msig_admins: Vec<Account> = Vec::new();
        msig_admins.push(multisig);
        self.guard.admins = msig_admins;
        self.events = Vec::new();
        Ok(())
    }

    /// The linked multisig contract; `MultisigAdminNotConfigured` before it
    /// is linked.
    pub fn get_multisig_admin(&self) -> (result: Result<Account, ContractError>)
        ensures
            result == match self@.multisig_admin {
                Some(m) => Ok(m),
                None => Err(ContractError::MultisigAdminNotConfigured),
            },
    {
        match self.multisig_admin {
            Some(m) => Ok(m),
            None => Err(ContractError::MultisigAdminNotConfigured),
        }
    }

    /// The enforcement phase for a loan `days` days overdue.
    pub fn days_to_phase(days: u64) -> (result: DefaultPhase)
        ensures
            result == spec_days_to_phase(days),
    {
        if 1 <= days && days <= 7 {
            DefaultPhase::Friendly
        } else if 8 <= days && days <= 21 {
            DefaultPhase::Warning
        } else if 22 <= days && days <= 60 {
            DefaultPhase::Enforcement
        } else {
            DefaultPhase::Reported
        }
    }

    /// Records an overdue loan (admin only, refused while paused). The
    /// number of days overdue is computed off-chain; `now` is the ledger
    /// timestamp. Returns the loan's phase so the caller can trigger further
    /// actions.
    pub fn record_default(
        &mut self,
        caller: Account,
        loan_id: u32,
        borrower: Account,
        amount: i128,
        days_overdue: u64,
        now: u64,
    ) -> (result: Result<DefaultPhase, ContractError>)
        ensures
            spec_record_default(old(self)@, caller, loan_id, borrower, amount, days_overdue, now)
                == match result {
                Ok(p) => Ok((p, final(self)@)),
                Err(e) => Err(e),
            },
            result is Err ==> final(self)@ == old(self)@,
    {
        check_admin(&self.guard.admins, self.admin, caller)?;
        self.guard.check_not_paused()?;
        let phase = Self::days_to_phase(days_overdue);
        let record = DefaultRecord {
            loan_id,
            borrower,
            amount,
            recorded_at: now,
            days_overdue,
            phase,
        };
        self.default_records.insert(loan_id, record);
        self.events = Vec::new();
        Ok(phase)
    }

    /// The default record of `loan_id`.
    pub fn get_default_record(&self, loan_id: u32) -> (result: Result<DefaultRecord, ContractError>)
        ensures
            result == spec_default_record(self@, loan_id),
    {
        match self.default_records.get(&loan_id) {
            Some(r) => Ok(*r),
            None => Err(ContractError::DefaultRecordNotFound),
        }
    }

    /// Current insurance fund balance, in stroops.
    pub fn get_insurance_balance(&self) -> (result: i128)
        ensures
            result == self@.insurance_balance,
    {
        self.insurance_balance
    }

    /// Adds platform fee income to the insurance fund: only the linked
    /// multisig contract once it is linked, the multisig admins before.
    pub fn add_to_insurance(&mut self, caller: Account, amount: i128) -> (result: Result<
        (),
        ContractError,
    >)
        ensures
            spec_add_to_insurance(old(self)@, caller, amount) == match result {
                Ok(()) => Ok(final(self)@),
                Err(e) => Err(e),
            },
            result is Err ==> final(self)@ == old(self)@,
    {
        let unlinked = self.guard.check_multisig_admin(caller);
        check_fund_mover(self.multisig_admin, caller, unlinked)?;
        let new_balance = match self.insurance_balance.checked_add(amount) {
            Some(b) => b,
            None => return Err(ContractError::ArithmeticOverflow),
        };
        self.insurance_balance = new_balance;
        self.events = Vec::new();
        Ok(())
    }

    /// Pays a lender of a defaulted loan from the insurance fund (only the
    /// linked multisig contract once it is linked, the admin before; refused
    /// while paused). The payment itself is a separate ledger operation; this
    /// deducts it from the fund and records it.
    pub fn trigger_insurance_payout(
        &mut self,
        caller: Account,
        loan_id: u32,
        lender: Account,
        amount: i128,
        now: u64,
    ) -> (result: Result<(), ContractError>)
        ensures
            spec_trigger_insurance_payout(old(self)@, caller, loan_id, lender, amount, now)
                == match result {
                Ok(()) => Ok(final(self)@),
                Err(e) => Err(e),
            },
            result is Err ==> final(self)@ == old(self)@,
    {
        let unlinked = check_admin(&self.guard.admins, self.admin, caller);
        check_fund_mover(self.multisig_admin, caller, unlinked)?;
        self.guard.check_not_paused()?;
        let balance = self.insurance_balance;
        if balance < amount {
            return Err(ContractError::InsufficientInsuranceFunds);
        }
        let new_balance = match balance.checked_sub(amount) {
            Some(b) => b,
            None => return Err(ContractError::ArithmeticOverflow),
        };
        let new_count = match self.insurance_event_count.checked_add(1) {
            Some(c) => c,
            None => return Err(ContractError::ArithmeticOverflow),
        };
        let event = InsuranceEvent { loan_id, lender, amount_paid: amount, paid_at: now };
        self.insurance_balance = new_balance;
        self.insurance_events.insert(new_count, event);
        self.insurance_event_count = new_count;
        self.events = Vec::new();
        Ok(())
    }

    /// The insurance payout recorded under `event_index`.
    pub fn get_insurance_event(&self, event_index: u32) -> (result: Result<
        InsuranceEvent,
        ContractError,
    >)
        ensures
            result == spec_insurance_event(self@, event_index),
    {
        match self.insurance_events.get(&event_index) {
            Some(e) => Ok(*e),
            None => Err(ContractError::InsuranceEventNotFound),
        }
    }

    /// Number of insurance payouts recorded.
    pub fn get_insurance_event_count(&self) -> (result: u32)
        ensures
            result == self@.insurance_event_count,
    {
        self.insurance_event_count
    }
}

/// Enforcement only escalates: from the first overdue day on, a loan that
/// is overdue longer is never in an earlier phase.
pub proof fn phase_escalates_with_days(d1: u64, d2: u64)
    requires
        1 <= d1 <= d2,
    ensures
        phase_rank(spec_days_to_phase(d1)) <= phase_rank(spec_days_to_phase(d2)),
{
}

/// A recorded default can be read back: it holds the loan, borrower,
/// amount, days overdue, the recording time and the phase that was
/// returned.
pub proof fn recorded_default_reads_back(
    s: DefaultManagementView,
    caller: Account,
    loan_id: u32,
    borrower: Account,
    amount: i128,
    days_overdue: u64,
    now: u64,
)
    requires
        spec_record_default(s, caller, loan_id, borrower, amount, days_overdue, now) is Ok,
    ensures
        ({
            let (phase, s1) = spec_record_default(
                s,
                caller,
                loan_id,
                borrower,
                amount,
                days_overdue,
                now,
            )->Ok_0;
            &&& phase == spec_days_to_phase(days_overdue)
            &&& spec_default_record(s1, loan_id) == Ok::<DefaultRecord, ContractError>(
                DefaultRecord { loan_id, borrower, amount, recorded_at: now, days_overdue, phase },
            )
        }),
{
}

/// A payout takes exactly its amount out of the fund, never leaves the
/// fund negative, and is recorded under the next event index where it can
/// be read back.
pub proof fn payout_is_deducted_and_recorded(
    s: DefaultManagementView,
    caller: Account,
    loan_id: u32,
    lender: Account,
    amount: i128,
    now: u64,
)
    requires
        spec_trigger_insurance_payout(s, caller, loan_id, lender, amount, now) is Ok,
    ensures
        ({
            let s1 = spec_trigger_insurance_payout(s, caller, loan_id, lender, amount, now)->Ok_0;
            &&& s1.insurance_balance == s.insurance_balance - amount
            &&& s1.insurance_balance >= 0
            &&& s1.insurance_event_count == s.insurance_event_count + 1
            &&& spec_insurance_event(s1, s1.insurance_event_count) == Ok::<
                InsuranceEvent,
                ContractError,
            >(InsuranceEvent { loan_id, lender, amount_paid: amount, paid_at: now })
        }),
{
}

/// Money added to the fund raises its balance by exactly that amount.
pub proof fn insurance_deposit_adds_amount(s: DefaultManagementView, caller: Account, amount: i128)
    requires
        spec_add_to_insurance(s, caller, amount) is Ok,
    ensures
        spec_add_to_insurance(s, caller, amount)->Ok_0.insurance_balance == s.insurance_balance
            + amount,
{
}

/// While paused, recording defaults and paying out insurance are refused
/// for every admin (and for the linked multisig, where there is one), whereas adding to the fund is decided exactly as if the
/// contract were running.
pub proof fn pause_blocks_defaults_and_payouts(
    s: DefaultManagementView,
    caller: Account,
    loan_id: u32,
    who: Account,
    amount: i128,
    days_overdue: u64,
    now: u64,
)
    requires
        s.guard.paused,
        spec_check_admin(s.guard.admins, s.admin, caller) is Ok,
        s.multisig_admin is None || s.multisig_admin == Some(caller),
    ensures
        spec_record_default(s, caller, loan_id, who, amount, days_overdue, now) == Err::<
            (DefaultPhase, DefaultManagementView),
            ContractError,
        >(ContractError::Paused),
        spec_trigger_insurance_payout(s, caller, loan_id, who, amount, now) == Err::<
            DefaultManagementView,
            ContractError,
        >(ContractError::Paused),
        ({
            let running = DefaultManagementView {
                guard: PauseGuardView { paused: false, ..s.guard },
                ..s
            };
            match (
                spec_add_to_insurance(s, caller, amount),
                spec_add_to_insurance(running, caller, amount),
            ) {
                (Ok(a), Ok(b)) => a.insurance_balance == b.insurance_balance,
                (Err(a), Err(b)) => a == b,
                _ => false,
            }
        }),
{
}

/// Once the multisig contract is linked, it is the only account that can
/// move the insurance fund: every other caller is refused both adding to
/// the fund and paying out of it, and the link itself can never be
/// replaced. Before the link, payouts stay with the admin.
pub proof fn linked_multisig_gates_the_fund(
    s: DefaultManagementView,
    multisig: Account,
    admin: Account,
    caller: Account,
    loan_id: u32,
    lender: Account,
    amount: i128,
    now: u64,
)
    requires
        s.multisig_admin == Some(multisig),
        caller != multisig,
    ensures
        spec_add_to_insurance(s, caller, amount) == Err::<DefaultManagementView, ContractError>(
            ContractError::NotMultisigAdmin,
        ),
        spec_trigger_insurance_payout(s, caller, loan_id, lender, amount, now) == Err::<
            DefaultManagementView,
            ContractError,
        >(ContractError::NotMultisigAdmin),
        spec_set_multisig_admin(s, admin, caller) is Err,
{
}

/// Recording a default never depends on what was recorded before: whenever
/// the caller is an admin (a multisig admin or the stored admin) and the
/// contract is running, the record is accepted, the loan's phase follows
/// its days overdue (1-7 friendly, 8-21 warning, 22-60 enforcement,
/// otherwise reported), and the loan's record is replaced by the new one
/// while every other record is kept.
pub proof fn record_default_always_accepted(
    s: DefaultManagementView,
    caller: Account,
    loan_id: u32,
    borrower: Account,
    amount: i128,
    days_overdue: u64,
    now: u64,
)
    requires
        s.guard.admins.contains(caller) || s.admin == Some(caller),
        !s.guard.paused,
    ensures
        spec_record_default(s, caller, loan_id, borrower, amount, days_overdue, now) matches Ok(
            (phase, s1),
        ) && {
            &&& phase == if 1 <= days_overdue <= 7 {
                DefaultPhase::Friendly
            } else if 8 <= days_overdue <= 21 {
                DefaultPhase::Warning
            } else if 22 <= days_overdue <= 60 {
                DefaultPhase::Enforcement
            } else {
                DefaultPhase::Reported
            }
            &&& s1.default_records.contains_key(loan_id)
            &&& s1.default_records[loan_id] == DefaultRecord {
                loan_id,
                borrower,
                amount,
                recorded_at: now,
                days_overdue,
                phase,
            }
            &&& forall|other: u32|
                other != loan_id ==> #[trigger] s1.default_records.contains_key(other)
                    == s.default_records.contains_key(other) && (s.default_records.contains_key(
                    other,
                ) ==> s1.default_records[other] == s.default_records[other])
            &&& s1.guard == s.guard
            &&& s1.admin == s.admin
        },
{
}

/// The daily re-recording of an overdue loan escalates it: recording the
/// same loan again with more days overdue succeeds, and the stored record
/// then holds the new days and a phase no earlier than before.
pub proof fn rerecording_a_default_escalates(
    s: DefaultManagementView,
    caller: Account,
    loan_id: u32,
    borrower: Account,
    amount: i128,
    d1: u64,
    d2: u64,
    t1: u64,
    t2: u64,
)
    requires
        s.guard.admins.contains(caller) || s.admin == Some(caller),
        !s.guard.paused,
        1 <= d1 <= d2,
    ensures
        spec_record_default(s, caller, loan_id, borrower, amount, d1, t1) matches Ok((p1, s1)) && (
        spec_record_default(s1, caller, loan_id, borrower, amount, d2, t2) matches Ok((p2, s2))
            && s2.default_records[loan_id].days_overdue == d2 && s2.default_records[loan_id].phase
            == p2 && phase_rank(p1) <= phase_rank(p2)),
{
    record_default_always_accepted(s, caller, loan_id, borrower, amount, d1, t1);
    let s1 = spec_record_default(s, caller, loan_id, borrower, amount, d1, t1)->Ok_0.1;
    record_default_always_accepted(s1, caller, loan_id, borrower, amount, d2, t2);
}

/// A payout by the account allowed to move the fund (the linked multisig,
/// or the admin before any link) is accepted whenever the contract runs,
/// the fund covers it and the payout counter has room: the fund shrinks by
/// exactly the amount and the payout is recorded under the next index.
pub proof fn payout_accepted_when_funded(
    s: DefaultManagementView,
    caller: Account,
    loan_id: u32,
    lender: Account,
    amount: i128,
    now: u64,
)
    requires
        match s.multisig_admin {
            Some(m) => caller == m,
            None => s.guard.admins.contains(caller) || s.admin == Some(caller),
        },
        !s.guard.paused,
        0 <= amount <= s.insurance_balance,
        s.insurance_event_count < u32::MAX,
    ensures
        spec_trigger_insurance_payout(s, caller, loan_id, lender, amount, now) matches Ok(s1) && {
            &&& s1.insurance_balance == s.insurance_balance - amount
            &&& s1.insurance_event_count == s.insurance_event_count + 1
            &&& s1.insurance_events[s1.insurance_event_count] == InsuranceEvent {
                loan_id,
                lender,
                amount_paid: amount,
                paid_at: now,
            }
        },
{
}

} // verus!
