use vstd::prelude::*;

use crate::msg::{MilestoneStatus, ProjectStatus};

verus! {

/// Every failure an operation of this crate can report. Each failure is
/// terminal for the current call: the host applies state changes
/// all-or-nothing, so a returned error commits nothing.
#[derive(Clone, Copy, Debug, PartialEq, Eq, Structural)]
pub enum ContractError {
    /// The caller fails an ownership or role check.
    Unauthorized,
    /// No project record carries the given identifier.
    NotRegisteredProject,
    /// A project record already carries the given identifier.
    AlreadyRegisteredProject,
    /// The wallet is not in the community registry.
    NotRegisteredCommunity,
    /// The wallet is already in the community registry.
    AlreadyRegisteredCommunity,
    /// The project is not in the lifecycle state the operation needs;
    /// carries the offending state for diagnostics.
    NotCorrectStatus { status: ProjectStatus },
    /// The current milestone is not in the state the operation needs.
    NotCorrectMilestoneStatus { step: u64, milestone_status: MilestoneStatus },
    /// The project has no token address configured yet.
    NotTokenAddr,
    /// No companion vesting contract address is configured yet.
    NotSetVestAddr,
    /// The contribution is below the minimum single contribution.
    NeedCoin,
    /// The addressed pool already stands at its half-of-target cap.
    AlreadyCollected,
    /// A claim found nothing unlocked and unreleased.
    NoPendingTokens,
    /// An attempted release exceeds what is held for the project.
    NotEnoughBalance,
    /// A computation would overflow, underflow, or divide by zero.
    ArithmeticError,
}

} // verus!
