//! The ways in which an operation is refused.

use vstd::prelude::*;

verus! {

/// Why an operation failed. Every error ends the operation it comes from and
/// leaves all records as they were.
#[derive(Debug, Clone, Copy, PartialEq, Eq, Structural)]
pub enum VIOPStakingError {
    /// The contract is paused.
    ContractPaused,
    /// The contract is not paused.
    ContractNotPaused,
    /// The caller is not the administrator.
    Unauthorized,
    /// Every reward of the stake has been claimed already.
    HasClaimedAllReward,
    /// Rewards are still to be claimed.
    HasNotClaimedAllReward,
    /// The lock has not run out yet.
    StakePeriodNotOver,
    /// The funds ledger did not carry out the transfer.
    TransferFailure,
}

impl VIOPStakingError {
    /// The message that goes with the error.
    pub open spec fn spec_message(self) -> Seq<char> {
        match self {
            VIOPStakingError::ContractPaused => "Contract is paused"@,
            VIOPStakingError::ContractNotPaused => "Contract is not paused"@,
            VIOPStakingError::Unauthorized => "Unauthorized access"@,
            VIOPStakingError::HasClaimedAllReward => "Has claimed all reward"@,
            VIOPStakingError::HasNotClaimedAllReward => "Has claimed all reward"@,
            VIOPStakingError::StakePeriodNotOver => "Staking period not over"@,
            VIOPStakingError::TransferFailure => "Transfer failed"@,
        }
    }

    /// The message that goes with the error.
    pub fn message(&self) -> (text: &'static str)
        ensures
            text@ == self.spec_message(),
    {
        match self {
            VIOPStakingError::ContractPaused => "Contract is paused",
            VIOPStakingError::ContractNotPaused => "Contract is not paused",
            VIOPStakingError::Unauthorized => "Unauthorized access",
            VIOPStakingError::HasClaimedAllReward => "Has claimed all reward",
            VIOPStakingError::HasNotClaimedAllReward => "Has claimed all reward",
            VIOPStakingError::StakePeriodNotOver => "Staking period not over",
            VIOPStakingError::TransferFailure => "Transfer failed",
        }
    }
}

} // verus!
