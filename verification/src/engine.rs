//! The staking engine: `stake`, `claim` and `withdraw`.
//!
//! Each operation reads the control state and one stake record, decides, and
//! stages the record to store together with the one transfer to issue. Nothing
//! is changed in place: the caller issues the transfer and stores the record
//! that `Staged::settle` returns for the ledger's answer, so a refused
//! operation or a failed transfer leaves no trace.

use vstd::prelude::*;
use crate::error::VIOPStakingError;
use crate::ledger::Staged;
use crate::ledger::Transfer;
use crate::record::StakeInfo;
use crate::state::State;
use crate::tier::StakeTime;

verus! {

/// What `stake` answers.
pub open spec fn spec_stake(
    state: State,
    stake_info: StakeInfo,
    amount: u64,
    stake_time: StakeTime,
    now: i64,
) -> Result<Staged, VIOPStakingError> {
    if state.paused {
        Err(VIOPStakingError::ContractPaused)
    } else {
        Ok(
            Staged {
                record: stake_info.spec_staked(amount, stake_time, now),
                transfer: Transfer::spec_deposit(amount),
            },
        )
    }
}

/// What `claim` answers.
pub open spec fn spec_claim(state: State, stake_info: StakeInfo, now: i64) -> Result<
    Staged,
    VIOPStakingError,
> {
    if state.paused {
        Err(VIOPStakingError::ContractPaused)
    } else if stake_info.has_claimed_all {
        Err(VIOPStakingError::HasClaimedAllReward)
    } else {
        Ok(
            Staged {
                record: stake_info.spec_claimed(now),
                transfer: Transfer::spec_payout(stake_info.spec_claim_payout(now)),
            },
        )
    }
}

/// What `withdraw` answers.
pub open spec fn spec_withdraw(state: State, stake_info: StakeInfo, now: i64) -> Result<
    Staged,
    VIOPStakingError,
> {
    if state.paused {
        Err(VIOPStakingError::ContractPaused)
    } else if !stake_info.has_claimed_all {
        Err(VIOPStakingError::HasNotClaimedAllReward)
    } else if now < stake_info.stake_time {
        Err(VIOPStakingError::StakePeriodNotOver)
    } else {
        Ok(Staged { record: stake_info, transfer: Transfer::spec_payout(stake_info.stake_balance) })
    }
}

/// Stakes `amount` at `now` for the lock `stake_time`.
///
/// Fails with `ContractPaused` while the contract is paused. Otherwise the
/// staged record holds the old balance plus `amount`; its stake and its last
/// claim are dated `now`, its maturity `now` plus the lock duration, and
/// nothing counts as claimed. This holds for a record that was staked before
/// too: the balance adds up, all else starts afresh. The staged transfer
/// moves `amount` from the user into custody.
///
/// Unless the contract is paused, the new balance and the maturity must fit
/// their 64 bits.
pub fn stake(
    state: &State,
    stake_info: &StakeInfo,
    amount: u64,
    stake_time: StakeTime,
    now: i64,
) -> (result: Result<Staged, VIOPStakingError>)
    requires
        !state.paused ==> stake_info.stake_balance + amount <= u64::MAX,
        !state.paused ==> now + stake_time.spec_duration() <= i64::MAX,
    ensures
        result == spec_stake(*state, *stake_info, amount, stake_time, now),
        result is Ok <==> !state.paused,
        result matches Ok(staged) ==> {
            &&& staged.record.stake_balance == stake_info.stake_balance + amount
            &&& amount > 0 ==> staged.record.stake_balance > stake_info.stake_balance
            &&& staged.record.stake_time == now + stake_time.spec_duration()
            &&& staged.record.stake_time > staged.record.staked_at
            &&& staged.record.wf()
        },
{
    if state.paused {
        return Err(VIOPStakingError::ContractPaused);
    }
    let record = StakeInfo {
        stake_balance: stake_info.stake_balance + amount,
        staked_at: now,
        last_claim_at: now,
        stake_time: now + stake_time.duration(),
        claim_balance: 0,
        has_claimed_all: false,
    };
    Ok(Staged { record, transfer: Transfer::deposit(amount) })
}

/// Claims the reward that is due at `now`.
///
/// Fails with `ContractPaused` while the contract is paused, else with
/// `HasClaimedAllReward` when the rewards up to maturity have been paid
/// already. Otherwise the staged transfer pays, out of custody, the
/// day-based reward for the whole days since the last claim; or, when `now`
/// has reached maturity and nothing was claimed before, the maturity bonus of
/// the tier, which the staged record also notes in `claim_balance`. The
/// staged record dates the last claim `now` and counts everything as claimed
/// once `now` has reached maturity.
pub fn claim(state: &State, stake_info: &StakeInfo, now: i64) -> (result: Result<
    Staged,
    VIOPStakingError,
>)
    ensures
        result == spec_claim(*state, *stake_info, now),
        stake_info.has_claimed_all ==> result is Err,
        result matches Ok(staged) ==> {
            &&& staged.record.last_claim_at == now
            &&& staged.record.has_claimed_all <==> now >= stake_info.stake_time
            &&& stake_info.wf() && now >= stake_info.last_claim_at ==> staged.record.wf()
        },
{
    if state.paused {
        return Err(VIOPStakingError::ContractPaused);
    }
    if stake_info.has_claimed_all {
        return Err(VIOPStakingError::HasClaimedAllReward);
    }
    let bonus_due = stake_info.bonus_tier(now).is_some();
    let payout = stake_info.claim_payout(now);
    let record = StakeInfo {
        stake_balance: stake_info.stake_balance,
        staked_at: stake_info.staked_at,
        last_claim_at: now,
        stake_time: stake_info.stake_time,
        claim_balance: if bonus_due {
            payout
        } else {
            stake_info.claim_balance
        },
        has_claimed_all: now >= stake_info.stake_time,
    };
    Ok(Staged { record, transfer: Transfer::payout(payout) })
}

/// Withdraws the principal at `now`.
///
/// Fails with `ContractPaused` while the contract is paused, else with
/// `HasNotClaimedAllReward` while rewards are still to be claimed, else with
/// `StakePeriodNotOver` before maturity. Otherwise the staged transfer pays
/// the whole `stake_balance` out of custody, and the staged record is
/// `stake_info` as it stands: the balance is not cleared, and what becomes of
/// a record that was withdrawn is for the keeper of the records to decide.
pub fn withdraw(state: &State, stake_info: &StakeInfo, now: i64) -> (result: Result<
    Staged,
    VIOPStakingError,
>)
    ensures
        result == spec_withdraw(*state, *stake_info, now),
        result is Ok <==> !state.paused && stake_info.has_claimed_all && now
            >= stake_info.stake_time,
        result matches Ok(staged) ==> staged.transfer.amount == stake_info.stake_balance
            && staged.record == *stake_info,
{
    if state.paused {
        return Err(VIOPStakingError::ContractPaused);
    }
    if !stake_info.has_claimed_all {
        return Err(VIOPStakingError::HasNotClaimedAllReward);
    }
    if now < stake_info.stake_time {
        return Err(VIOPStakingError::StakePeriodNotOver);
    }
    Ok(Staged { record: *stake_info, transfer: Transfer::payout(stake_info.stake_balance) })
}

} // verus!
