//! What the engine asks of the funds ledger, and how an operation ends once
//! the ledger has answered.

use vstd::prelude::*;
use crate::error::VIOPStakingError;
use crate::record::StakeInfo;

verus! {

/// A balance that the funds ledger holds.
#[derive(Debug, Clone, Copy, PartialEq, Eq, Structural)]
pub enum Holder {
    /// The user's own balance.
    User,
    /// The balance that the contract keeps in custody.
    Contract,
}

/// Who authorises a transfer.
#[derive(Debug, Clone, Copy, PartialEq, Eq, Structural)]
pub enum Authority {
    /// The user, as owner of the balance that is debited.
    User,
    /// The contract's own custodial authority.
    Custodian,
}

/// One transfer for the funds ledger to carry out, wholly or not at all.
#[derive(Debug, Clone, Copy, PartialEq, Eq, Structural)]
pub struct Transfer {
    pub from: Holder,
    pub to: Holder,
    pub amount: u64,
    pub authority: Authority,
}

impl Transfer {
    /// `amount` from the user into custody, authorised by the user.
    pub open spec fn spec_deposit(amount: u64) -> Transfer {
        Transfer { from: Holder::User, to: Holder::Contract, amount, authority: Authority::User }
    }

    /// `amount` out of custody to the user, authorised by the custodian.
    pub open spec fn spec_payout(amount: u64) -> Transfer {
        Transfer {
            from: Holder::Contract,
            to: Holder::User,
            amount,
            authority: Authority::Custodian,
        }
    }

    /// By how much the transfer raises the balance of `holder`; negative
    /// where it lowers it.
    pub open spec fn credit(self, holder: Holder) -> int {
        (if self.to == holder {
            self.amount as int
        } else {
            0
        }) - (if self.from == holder {
            self.amount as int
        } else {
            0
        })
    }

    /// `amount` from the user into custody, authorised by the user.
    #[verifier::when_used_as_spec(spec_deposit)]
    pub fn deposit(amount: u64) -> (transfer: Transfer)
        ensures
            transfer == Self::spec_deposit(amount),
    {
        Transfer { from: Holder::User, to: Holder::Contract, amount, authority: Authority::User }
    }

    /// `amount` out of custody to the user, authorised by the custodian.
    #[verifier::when_used_as_spec(spec_payout)]
    pub fn payout(amount: u64) -> (transfer: Transfer)
        ensures
            transfer == Self::spec_payout(amount),
    {
        Transfer {
            from: Holder::Contract,
            to: Holder::User,
            amount,
            authority: Authority::Custodian,
        }
    }
}

/// The funds ledger's answer to a transfer.
#[derive(Debug, Clone, Copy, PartialEq, Eq, Structural)]
pub enum TransferOutcome {
    Success,
    Failure,
}

/// An operation that has passed its checks and waits for its transfer: the
/// record to store if the transfer succeeds, and the transfer to issue.
#[derive(Debug, Clone, Copy, PartialEq, Eq, Structural)]
pub struct Staged {
    pub record: StakeInfo,
    pub transfer: Transfer,
}

impl Staged {
    /// How the operation ends on `outcome`.
    pub open spec fn spec_settle(self, outcome: TransferOutcome) -> Result<
        StakeInfo,
        VIOPStakingError,
    > {
        match outcome {
            TransferOutcome::Success => Ok(self.record),
            TransferOutcome::Failure => Err(VIOPStakingError::TransferFailure),
        }
    }

    /// Ends the operation with the ledger's answer. After a successful
    /// transfer the staged record is the one to store. After a failed one the
    /// operation fails with `TransferFailure` and the staged record is gone:
    /// the stored record stays as it was before the operation.
    #[verifier::when_used_as_spec(spec_settle)]
    pub fn settle(self, outcome: TransferOutcome) -> (result: Result<StakeInfo, VIOPStakingError>)
        ensures
            result == self.spec_settle(outcome),
    {
        match outcome {
            TransferOutcome::Success => Ok(self.record),
            TransferOutcome::Failure => Err(VIOPStakingError::TransferFailure),
        }
    }
}

} // verus!
