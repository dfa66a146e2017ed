//! The loan status state machine and which actions a pause blocks.
use vstd::prelude::*;

verus! {

/// Lifecycle status of a loan.
#[derive(Debug, Clone, Copy, PartialEq, Eq, Structural)]
pub enum LoanStatus {
    Pending,
    Approved,
    Active,
    Repaid,
    Defaulted,
    Cancelled,
}

/// An operation that may move a loan to another status.
#[derive(Debug, Clone, Copy, PartialEq, Eq, Structural)]
pub enum Action {
    Approve,
    Cancel,
    Revoke,
    Activate,
    RecordPayment,
    FullPayment,
    Default,
    /// Switching the rate model; it never changes the status.
    SwitchRate,
}

/// The status a loan moves to when `action` is applied, or `None` when the
/// action is not allowed in that status.
pub open spec fn spec_transition(status: LoanStatus, action: Action) -> Option<LoanStatus> {
    match (status, action) {
        (LoanStatus::Pending, Action::Approve) => Some(LoanStatus::Approved),
        (LoanStatus::Pending, Action::Cancel) => Some(LoanStatus::Cancelled),
        (LoanStatus::Approved, Action::Revoke) => Some(LoanStatus::Pending),
        (LoanStatus::Approved, Action::Activate) => Some(LoanStatus::Active),
        (LoanStatus::Active, Action::RecordPayment) => Some(LoanStatus::Active),
        (LoanStatus::Active, Action::FullPayment) => Some(LoanStatus::Repaid),
        (LoanStatus::Active, Action::Default) => Some(LoanStatus::Defaulted),
        _ => None,
    }
}

/// Whether a paused pool refuses `action`: approving, activating,
/// defaulting and switching rate models are blocked; cancelling, revoking
/// and repaying stay open.
pub open spec fn spec_blocked_when_paused(action: Action) -> bool {
    match action {
        Action::Approve | Action::Activate | Action::Default | Action::SwitchRate => true,
        _ => false,
    }
}

/// Applies `action` to a loan in `status`: `Pending → Approved | Cancelled`,
/// `Approved → Pending | Active`, `Active → Active | Repaid | Defaulted`;
/// every other combination is refused with `None`.
pub fn transition(status: LoanStatus, action: Action) -> (result: Option<LoanStatus>)
    ensures
        result == spec_transition(status, action),
{
    match (status, action) {
        (LoanStatus::Pending, Action::Approve) => Some(LoanStatus::Approved),
        (LoanStatus::Pending, Action::Cancel) => Some(LoanStatus::Cancelled),
        (LoanStatus::Approved, Action::Revoke) => Some(LoanStatus::Pending),
        (LoanStatus::Approved, Action::Activate) => Some(LoanStatus::Active),
        (LoanStatus::Active, Action::RecordPayment) => Some(LoanStatus::Active),
        (LoanStatus::Active, Action::FullPayment) => Some(LoanStatus::Repaid),
        (LoanStatus::Active, Action::Default) => Some(LoanStatus::Defaulted),
        _ => None,
    }
}

/// Whether `action` is a state-changing operation that a paused pool
/// refuses.
pub fn action_blocked_when_paused(action: Action) -> (result: bool)
    ensures
        result == spec_blocked_when_paused(action),
{
    match action {
        Action::Approve | Action::Activate | Action::Default | Action::SwitchRate => true,
        _ => false,
    }
}

/// A loan in a terminal status (`Repaid`, `Defaulted`, `Cancelled`).
pub open spec fn is_terminal(status: LoanStatus) -> bool {
    status == LoanStatus::Repaid || status == LoanStatus::Defaulted || status
        == LoanStatus::Cancelled
}

/// A pending loan can only be approved or cancelled.
pub proof fn pending_loan_transitions(action: Action)
    ensures
        spec_transition(LoanStatus::Pending, action) == match action {
            Action::Approve => Some(LoanStatus::Approved),
            Action::Cancel => Some(LoanStatus::Cancelled),
            _ => None::<LoanStatus>,
        },
{
}

/// An approved loan can only be activated or revoked back to pending.
pub proof fn approved_loan_transitions(action: Action)
    ensures
        spec_transition(LoanStatus::Approved, action) == match action {
            Action::Revoke => Some(LoanStatus::Pending),
            Action::Activate => Some(LoanStatus::Active),
            _ => None::<LoanStatus>,
        },
{
}

/// An active loan stays active on a partial payment, becomes repaid on a
/// full payment or defaulted on default; nothing else changes its status.
pub proof fn active_loan_transitions(action: Action)
    ensures
        spec_transition(LoanStatus::Active, action) == match action {
            Action::RecordPayment => Some(LoanStatus::Active),
            Action::FullPayment => Some(LoanStatus::Repaid),
            Action::Default => Some(LoanStatus::Defaulted),
            _ => None::<LoanStatus>,
        },
{
}

/// Repaid, defaulted and cancelled loans are final: no action moves them.
pub proof fn terminal_statuses_are_final(status: LoanStatus, action: Action)
    requires
        is_terminal(status),
    ensures
        spec_transition(status, action) is None,
{
}

/// A loan only becomes repaid or defaulted from the active status, and only
/// becomes active from the approved status.
pub proof fn statuses_entered_only_from_their_predecessor(status: LoanStatus, action: Action)
    ensures
        spec_transition(status, action) == Some(LoanStatus::Repaid) ==> status
            == LoanStatus::Active,
        spec_transition(status, action) == Some(LoanStatus::Defaulted) ==> status
            == LoanStatus::Active,
        spec_transition(status, action) == Some(LoanStatus::Active) ==> status
            == LoanStatus::Approved || status == LoanStatus::Active,
{
}

} // verus!
