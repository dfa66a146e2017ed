//! Accounts, the single-admin check and the N-of-M multisig pause switch
//! shared by the escrow and default-management contracts.
use vstd::prelude::*;

use crate::errors::ContractError;

verus! {

/// An on-ledger account (user, admin, token or contract address), identified
/// by the number the host assigned to its address.
#[derive(Debug, Clone, Copy, PartialEq, Eq, Structural, Hash)]
pub struct Account(pub u64);

/// Whether `list` holds `a`.
pub fn contains_account(list: &Vec<Account>, a: Account) -> (result: bool)
    ensures
        result == list@.contains(a),
{
    let mut i: usize = 0;
    while i < list.len()
        invariant
            i <= list.len(),
            forall|j: int| 0 <= j < i ==> list@[j] != a,
        decreases list.len() - i,
    {
        if list[i] == a {
            return true;
        }
        i = i + 1;
    }
    false
}

/// Multisig configuration and pause state of a contract.
pub struct PauseGuard {
    /// Accounts allowed to vote on pausing and unpausing.
    pub admins: Vec<Account>,
    /// Votes needed to pause or unpause.
    pub threshold: u32,
    pub paused: bool,
    /// Every account that ever voted to pause (votes are never withdrawn).
    pub pause_approvals: Vec<Account>,
    /// Pause votes since the last time the contract was paused.
    pub pause_count: u32,
    /// Every account that ever voted to unpause.
    pub unpause_approvals: Vec<Account>,
    /// Unpause votes since the last time the contract was unpaused.
    pub unpause_count: u32,
}

/// The mathematical content of a `PauseGuard`.
pub struct PauseGuardView {
    pub admins: Seq<Account>,
    pub threshold: u32,
    pub paused: bool,
    pub pause_approvals: Seq<Account>,
    pub pause_count: u32,
    pub unpause_approvals: Seq<Account>,
    pub unpause_count: u32,
}

impl View for PauseGuard {
    type V = PauseGuardView;

    open spec fn view(&self) -> PauseGuardView {
        PauseGuardView {
            admins: self.admins@,
            threshold: self.threshold,
            paused: self.paused,
            pause_approvals: self.pause_approvals@,
            pause_count: self.pause_count,
            unpause_approvals: self.unpause_approvals@,
            unpause_count: self.unpause_count,
        }
    }
}

/// The guard of a fresh contract: no multisig admins, threshold 1, running.
pub open spec fn initial_guard() -> PauseGuardView {
    PauseGuardView {
        admins: Seq::empty(),
        threshold: 1,
        paused: false,
        pause_approvals: Seq::empty(),
        pause_count: 0,
        unpause_approvals: Seq::empty(),
        unpause_count: 0,
    }
}

/// Whether `caller` may act as admin: a configured multisig admin, or else
/// the contract's single admin (`NotInitialised` when there is none).
pub open spec fn spec_check_admin(admins: Seq<Account>, admin: Option<Account>, caller: Account) -> Result<
    (),
    ContractError,
> {
    if admins.len() > 0 && admins.contains(caller) {
        Ok(())
    } else {
        match admin {
            None => Err(ContractError::NotInitialised),
            Some(a) => if caller == a {
                Ok(())
            } else {
                Err(ContractError::NotAdmin)
            },
        }
    }
}

/// Whether `caller` is one of the configured multisig admins.
pub open spec fn spec_check_multisig_admin(g: PauseGuardView, caller: Account) -> Result<
    (),
    ContractError,
> {
    if g.admins.len() == 0 {
        Err(ContractError::MultisigNotConfigured)
    } else if !g.admins.contains(caller) {
        Err(ContractError::NotMultisigAdmin)
    } else {
        Ok(())
    }
}

/// `admins`, with `admin` appended when it is not already among them.
pub open spec fn with_admin(admins: Seq<Account>, admin: Account) -> Seq<Account> {
    if admins.contains(admin) {
        admins
    } else {
        admins.push(admin)
    }
}

/// The guard after configuring `admins` (plus the calling `admin`) with
/// `threshold`: the contract runs and both vote counters restart; earlier
/// votes stay recorded.
pub open spec fn spec_setup(g: PauseGuardView, admin: Account, admins: Seq<Account>, threshold: u32) -> Result<
    PauseGuardView,
    ContractError,
> {
    if threshold == 0 {
        Err(ContractError::ThresholdZero)
    } else if threshold > admins.len() {
        Err(ContractError::ThresholdExceedsAdmins)
    } else {
        Ok(
            PauseGuardView {
                admins: with_admin(admins, admin),
                threshold,
                paused: false,
                pause_count: 0,
                unpause_count: 0,
                ..g
            },
        )
    }
}

/// A pause vote by `caller`: whether it paused the contract, and the guard
/// afterwards. The vote that brings the count to the threshold pauses the
/// contract and restarts the count.
pub open spec fn spec_pause(g: PauseGuardView, caller: Account) -> Result<
    (bool, PauseGuardView),
    ContractError,
> {
    match spec_check_multisig_admin(g, caller) {
        Err(e) => Err(e),
        Ok(()) => if g.paused {
            Err(ContractError::AlreadyPaused)
        } else if g.pause_approvals.contains(caller) {
            Err(ContractError::DuplicatePauseSigner)
        } else if g.pause_count + 1 > u32::MAX {
            Err(ContractError::ArithmeticOverflow)
        } else if g.pause_count + 1 >= g.threshold {
            Ok(
                (
                    true,
                    PauseGuardView {
                        paused: true,
                        pause_approvals: g.pause_approvals.push(caller),
                        pause_count: 0,
                        ..g
                    },
                ),
            )
        } else {
            Ok(
                (
                    false,
                    PauseGuardView {
                        pause_approvals: g.pause_approvals.push(caller),
                        pause_count: (g.pause_count + 1) as u32,
                        ..g
                    },
                ),
            )
        }
    }
}

/// An unpause vote by `caller`: whether it unpaused the contract, and the
/// guard afterwards.
pub open spec fn spec_unpause(g: PauseGuardView, caller: Account) -> Result<
    (bool, PauseGuardView),
    ContractError,
> {
    match spec_check_multisig_admin(g, caller) {
        Err(e) => Err(e),
        Ok(()) => if !g.paused {
            Err(ContractError::NotPaused)
        } else if g.unpause_approvals.contains(caller) {
            Err(ContractError::DuplicateUnpauseSigner)
        } else if g.unpause_count + 1 > u32::MAX {
            Err(ContractError::ArithmeticOverflow)
        } else if g.unpause_count + 1 >= g.threshold {
            Ok(
                (
                    true,
                    PauseGuardView {
                        paused: false,
                        unpause_approvals: g.unpause_approvals.push(caller),
                        unpause_count: 0,
                        ..g
                    },
                ),
            )
        } else {
            Ok(
                (
                    false,
                    PauseGuardView {
                        unpause_approvals: g.unpause_approvals.push(caller),
                        unpause_count: (g.unpause_count + 1) as u32,
                        ..g
                    },
                ),
            )
        }
    }
}

/// Whether `caller` may act as admin (see `spec_check_admin`).
pub fn check_admin(admins: &Vec<Account>, admin: Option<Account>, caller: Account) -> (result:
    Result<(), ContractError>)
    ensures
        result == spec_check_admin(admins@, admin, caller),
{
    if admins.len() > 0 && contains_account(admins, caller) {
        return Ok(());
    }
    match admin {
        None => Err(ContractError::NotInitialised),
        Some(a) => if caller == a {
            Ok(())
        } else {
            Err(ContractError::NotAdmin)
        },
    }
}

impl PauseGuard {
    /// The guard of a fresh contract: no multisig admins, threshold 1.
    pub fn new() -> (result: PauseGuard)
        ensures
            result@ == initial_guard(),
    {
        PauseGuard {
            admins: Vec::new(),
            threshold: 1,
            paused: false,
            pause_approvals: Vec::new(),
            pause_count: 0,
            unpause_approvals: Vec::new(),
            unpause_count: 0,
        }
    }

    /// Refuses unless `caller` is a configured multisig admin.
    pub fn check_multisig_admin(&self, caller: Account) -> (result: Result<(), ContractError>)
        ensures
            result == spec_check_multisig_admin(self@, caller),
    {
        if self.admins.len() == 0 {
            return Err(ContractError::MultisigNotConfigured);
        }
        if !contains_account(&self.admins, caller) {
            return Err(ContractError::NotMultisigAdmin);
        }
        Ok(())
    }

    /// Refuses with `Paused` while the contract is paused.
    pub fn check_not_paused(&self) -> (result: Result<(), ContractError>)
        ensures
            result == (if self.paused { Err(ContractError::Paused) } else { Ok(()) }),
    {
        if self.paused {
            return Err(ContractError::Paused);
        }
        Ok(())
    }

    /// Installs `admins` (plus `admin` if missing) with `threshold` votes
    /// needed, resumes the contract and restarts both vote counters.
    pub fn setup(&mut self, admin: Account, admins: Vec<Account>, threshold: u32) -> (result: Result<
        (),
        ContractError,
    >)
        ensures
            spec_setup(old(self)@, admin, admins@, threshold) == match result {
                Ok(()) => Ok(final(self)@),
                Err(e) => Err(e),
            },
            result is Err ==> final(self)@ == old(self)@,
    {
        if threshold == 0 {
            return Err(ContractError::ThresholdZero);
        }
        if threshold as usize > admins.len() {
            return Err(ContractError::ThresholdExceedsAdmins);
        }
        let mut final_admins = admins;
        if !contains_account(&final_admins, admin) {
            final_admins.push(admin);
        }
        self.threshold = threshold;
        self.admins = final_admins;
        self.paused = false;
        self.pause_count = 0;
        self.unpause_count = 0;
        Ok(())
    }

    /// Records a pause vote by `caller`; returns whether it paused the
    /// contract.
    pub fn pause(&mut self, caller: Account) -> (result: Result<bool, ContractError>)
        ensures
            spec_pause(old(self)@, caller) == match result {
                Ok(b) => Ok((b, final(self)@)),
                Err(e) => Err(e),
            },
            result is Err ==> final(self)@ == old(self)@,
    {
        self.check_multisig_admin(caller)?;
        if self.paused {
            return Err(ContractError::AlreadyPaused);
        }
        if contains_account(&self.pause_approvals, caller) {
            return Err(ContractError::DuplicatePauseSigner);
        }
        let new_count = match self.pause_count.checked_add(1) {
            Some(c) => c,
            None => return Err(ContractError::ArithmeticOverflow),
        };
        self.pause_approvals.push(caller);
        if new_count >= self.threshold {
            self.paused = true;
            self.pause_count = 0;
            Ok(true)
        } else {
            self.pause_count = new_count;
            Ok(false)
        }
    }

    /// Records an unpause vote by `caller`; returns whether it unpaused the
    /// contract.
    pub fn unpause(&mut self, caller: Account) -> (result: Result<bool, ContractError>)
        ensures
            spec_unpause(old(self)@, caller) == match result {
                Ok(b) => Ok((b, final(self)@)),
                Err(e) => Err(e),
            },
            result is Err ==> final(self)@ == old(self)@,
    {
        self.check_multisig_admin(caller)?;
        if !self.paused {
            return Err(ContractError::NotPaused);
        }
        if contains_account(&self.unpause_approvals, caller) {
            return Err(ContractError::DuplicateUnpauseSigner);
        }
        let new_count = match self.unpause_count.checked_add(1) {
            Some(c) => c,
            None => return Err(ContractError::ArithmeticOverflow),
        };
        self.unpause_approvals.push(caller);
        if new_count >= self.threshold {
            self.paused = false;
            self.unpause_count = 0;
            Ok(true)
        } else {
            self.unpause_count = new_count;
            Ok(false)
        }
    }
}

/// The guard after pause votes by `callers`, in order; the first refused
/// vote refuses the whole sequence.
pub open spec fn run_pause_votes(g: PauseGuardView, callers: Seq<Account>) -> Result<
    PauseGuardView,
    ContractError,
>
    decreases callers.len(),
{
    if callers.len() == 0 {
        Ok(g)
    } else {
        match run_pause_votes(g, callers.drop_last()) {
            Err(e) => Err(e),
            Ok(g1) => match spec_pause(g1, callers.last()) {
                Err(e) => Err(e),
                Ok((_, g2)) => Ok(g2),
            },
        }
    }
}

/// The guard after unpause votes by `callers`, in order.
pub open spec fn run_unpause_votes(g: PauseGuardView, callers: Seq<Account>) -> Result<
    PauseGuardView,
    ContractError,
>
    decreases callers.len(),
{
    if callers.len() == 0 {
        Ok(g)
    } else {
        match run_unpause_votes(g, callers.drop_last()) {
            Err(e) => Err(e),
            Ok(g1) => match spec_unpause(g1, callers.last()) {
                Err(e) => Err(e),
                Ok((_, g2)) => Ok(g2),
            },
        }
    }
}

/// N-of-M pausing: starting from a running contract with no pending votes,
/// votes by distinct multisig admins who never voted to pause before are
/// all accepted, and the contract is paused exactly when the number of
/// votes reaches the threshold; until then each vote is counted.
pub proof fn pause_takes_effect_at_threshold(g: PauseGuardView, callers: Seq<Account>)
    requires
        !g.paused,
        g.pause_count == 0,
        callers.no_duplicates(),
        forall|i: int|
            0 <= i < callers.len() ==> g.admins.contains(#[trigger] callers[i])
                && !g.pause_approvals.contains(callers[i]),
        callers.len() <= g.threshold,
    ensures
        run_pause_votes(g, callers) matches Ok(g2) && {
            &&& g2.paused == (callers.len() > 0 && callers.len() == g.threshold)
            &&& !g2.paused ==> g2.pause_count == callers.len()
            &&& g2.pause_approvals == g.pause_approvals + callers
            &&& g2.admins == g.admins
            &&& g2.threshold == g.threshold
            &&& g2.unpause_count == g.unpause_count
        },
    decreases callers.len(),
{
    if callers.len() == 0 {
        assert(g.pause_approvals + callers =~= g.pause_approvals);
    } else {
        let prefix = callers.drop_last();
        assert forall|i: int| 0 <= i < prefix.len() implies g.admins.contains(#[trigger] prefix[i])
            && !g.pause_approvals.contains(prefix[i]) by {
            assert(prefix[i] == callers[i]);
        }
        pause_takes_effect_at_threshold(g, prefix);
        let g1 = run_pause_votes(g, prefix)->Ok_0;
        let last = callers.last();
        assert(g.admins.contains(callers[callers.len() - 1]));
        assert(!g.pause_approvals.contains(callers[callers.len() - 1]));
        assert(!prefix.contains(last)) by {
            if prefix.contains(last) {
                let j = choose|j: int| 0 <= j < prefix.len() && prefix[j] == last;
                assert(callers[j] == callers[callers.len() - 1]);
            }
        }
        assert(!g1.pause_approvals.contains(last)) by {
            if g1.pause_approvals.contains(last) {
                let j = choose|j: int|
                    0 <= j < g1.pause_approvals.len() && g1.pause_approvals[j] == last;
                if j < g.pause_approvals.len() {
                    assert(g.pause_approvals[j] == last);
                } else {
                    assert(prefix[j - g.pause_approvals.len()] == last);
                }
            }
        }
        assert(g1.pause_approvals.push(last) =~= g.pause_approvals + callers);
    }
}

/// N-of-M unpausing: starting from a paused contract with no pending unpause
/// votes, votes by distinct multisig admins who never voted to unpause
/// before are all accepted, and the contract resumes exactly when the number
/// of votes reaches the threshold.
pub proof fn unpause_takes_effect_at_threshold(g: PauseGuardView, callers: Seq<Account>)
    requires
        g.paused,
        g.unpause_count == 0,
        callers.no_duplicates(),
        forall|i: int|
            0 <= i < callers.len() ==> g.admins.contains(#[trigger] callers[i])
                && !g.unpause_approvals.contains(callers[i]),
        callers.len() <= g.threshold,
    ensures
        run_unpause_votes(g, callers) matches Ok(g2) && {
            &&& g2.paused == !(callers.len() > 0 && callers.len() == g.threshold)
            &&& g2.paused ==> g2.unpause_count == callers.len()
            &&& g2.unpause_approvals == g.unpause_approvals + callers
            &&& g2.admins == g.admins
            &&& g2.threshold == g.threshold
            &&& g2.pause_count == g.pause_count
        },
    decreases callers.len(),
{
    if callers.len() == 0 {
        assert(g.unpause_approvals + callers =~= g.unpause_approvals);
    } else {
        let prefix = callers.drop_last();
        assert forall|i: int| 0 <= i < prefix.len() implies g.admins.contains(#[trigger] prefix[i])
            && !g.unpause_approvals.contains(prefix[i]) by {
            assert(prefix[i] == callers[i]);
        }
        unpause_takes_effect_at_threshold(g, prefix);
        let g1 = run_unpause_votes(g, prefix)->Ok_0;
        let last = callers.last();
        assert(g.admins.contains(callers[callers.len() - 1]));
        assert(!g.unpause_approvals.contains(callers[callers.len() - 1]));
        assert(!prefix.contains(last)) by {
            if prefix.contains(last) {
                let j = choose|j: int| 0 <= j < prefix.len() && prefix[j] == last;
                assert(callers[j] == callers[callers.len() - 1]);
            }
        }
        assert(!g1.unpause_approvals.contains(last)) by {
            if g1.unpause_approvals.contains(last) {
                let j = choose|j: int|
                    0 <= j < g1.unpause_approvals.len() && g1.unpause_approvals[j] == last;
                if j < g.unpause_approvals.len() {
                    assert(g.unpause_approvals[j] == last);
                } else {
                    assert(prefix[j - g.unpause_approvals.len()] == last);
                }
            }
        }
        assert(g1.unpause_approvals.push(last) =~= g.unpause_approvals + callers);
    }
}

/// A multisig admin's pause vote counts once: after an accepted vote that
/// did not yet pause the contract, the same admin's next vote is refused as
/// a duplicate; likewise for unpause votes.
pub proof fn repeated_vote_rejected(g: PauseGuardView, caller: Account)
    ensures
        spec_pause(g, caller) matches Ok((false, g1)) ==> spec_pause(g1, caller) == Err::<
            (bool, PauseGuardView),
            ContractError,
        >(ContractError::DuplicatePauseSigner),
        spec_unpause(g, caller) matches Ok((false, g1)) ==> spec_unpause(g1, caller) == Err::<
            (bool, PauseGuardView),
            ContractError,
        >(ContractError::DuplicateUnpauseSigner),
{
    if let Ok((false, g1)) = spec_pause(g, caller) {
        assert(g1.pause_approvals[g1.pause_approvals.len() - 1] == caller);
    }
    if let Ok((false, g1)) = spec_unpause(g, caller) {
        assert(g1.unpause_approvals[g1.unpause_approvals.len() - 1] == caller);
    }
}

} // verus!
