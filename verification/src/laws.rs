//! Laws that hold across the operations of the engine.

use vstd::prelude::*;
use crate::engine::spec_claim;
use crate::engine::spec_stake;
use crate::engine::spec_withdraw;
use crate::error::VIOPStakingError;
use crate::ledger::Holder;
use crate::ledger::Staged;
use crate::ledger::Transfer;
use crate::ledger::TransferOutcome;
use crate::record::StakeInfo;
use crate::reward::spec_capped;
use crate::reward::spec_day_based_reward;
use crate::reward::spec_maturity_bonus;
use crate::reward::spec_whole_days;
use crate::state::State;
use crate::tier::StakeTime;
use crate::tier::ONE_DAY_IN_UNIX;

verus! {

/// A transfer creates and destroys nothing: what it adds to one balance it
/// takes from the other.
pub proof fn lemma_transfer_conserves_funds(transfer: Transfer)
    ensures
        transfer.credit(Holder::User) + transfer.credit(Holder::Contract) == 0,
{
}

/// No whole day, no reward: a span shorter than a day holds no whole day, and
/// zero days earn nothing on any principal.
pub proof fn lemma_partial_day_earns_nothing(principal: nat, from: int, to: int)
    requires
        to < from + ONE_DAY_IN_UNIX,
    ensures
        spec_whole_days(from, to) == 0,
        spec_day_based_reward(principal, 0) == 0,
        spec_capped(spec_day_based_reward(principal, spec_whole_days(from, to))) == 0,
{
    let day = ONE_DAY_IN_UNIX as int;
    if to > from {
        assert((to - from) / day == 0) by (nonlinear_arith)
            requires
                0 < to - from < day,
        ;
    }
    assert(0 * principal == 0) by (nonlinear_arith);
}

/// A claim that is not paid the maturity bonus, made before a whole day of
/// the lock has passed since the last claim, pays nothing.
pub proof fn lemma_claim_within_a_day_pays_nothing(state: State, stake_info: StakeInfo, now: i64)
    requires
        !state.paused,
        !stake_info.has_claimed_all,
        stake_info.spec_bonus_tier(now) is None,
        stake_info.spec_effective_end(now) < stake_info.last_claim_at + ONE_DAY_IN_UNIX,
    ensures
        spec_claim(state, stake_info, now) matches Ok(staged) && staged.transfer
            == Transfer::spec_payout(0),
{
    lemma_partial_day_earns_nothing(
        stake_info.stake_balance as nat,
        stake_info.last_claim_at as int,
        stake_info.spec_effective_end(now) as int,
    );
}

/// The whole days of two spans that follow one another are no more than
/// those of the two taken as one.
pub proof fn lemma_whole_days_add_up(start: int, middle: int, end: int)
    requires
        start <= middle <= end,
    ensures
        spec_whole_days(start, middle) + spec_whole_days(middle, end) <= spec_whole_days(
            start,
            end,
        ),
{
    let day = ONE_DAY_IN_UNIX as int;
    assert((middle - start) / day + (end - middle) / day <= (end - start) / day
        && (middle - start) / day >= 0 && (end - middle) / day >= 0) by (nonlinear_arith)
        requires
            day == 86_400,
            start <= middle <= end,
    ;
}

/// The day-based reward grows with the days, and paying two runs of days
/// apart comes to no more than paying them as one run.
pub proof fn lemma_day_based_reward_adds_up(principal: nat, first: nat, second: nat)
    ensures
        spec_day_based_reward(principal, first) <= spec_day_based_reward(
            principal,
            first + second,
        ),
        spec_day_based_reward(principal, first) + spec_day_based_reward(principal, second)
            <= spec_day_based_reward(principal, first + second),
{
    let a = first * principal * 4;
    let b = second * principal * 4;
    assert((first + second) * principal * 4 == a + b) by (nonlinear_arith)
        requires
            a == first * principal * 4,
            b == second * principal * 4,
    ;
    assert(a >= 0 && b >= 0) by (nonlinear_arith)
        requires
            a == first * principal * 4,
            b == second * principal * 4,
    ;
    assert(a / 1000 + b / 1000 <= (a + b) / 1000 && a / 1000 <= (a + b) / 1000);
}

/// No day is paid twice. Two claims in a row, the clock not running
/// backwards, earn together no more day-based reward than the whole days
/// from the last claim before them to the end of accrual at the second are
/// worth.
pub proof fn lemma_no_day_is_paid_twice(stake_info: StakeInfo, first: i64, second: i64)
    requires
        stake_info.last_claim_at <= first <= second,
    ensures
        stake_info.spec_accrued(first) + stake_info.spec_claimed(first).spec_accrued(second)
            <= spec_day_based_reward(
            stake_info.stake_balance as nat,
            spec_whole_days(
                stake_info.last_claim_at as int,
                stake_info.spec_effective_end(second) as int,
            ),
        ),
{
    let principal = stake_info.stake_balance as nat;
    let start = stake_info.last_claim_at as int;
    let first_end = stake_info.spec_effective_end(first) as int;
    let second_end = stake_info.spec_effective_end(second) as int;
    let first_days = spec_whole_days(start, first_end);
    let second_days = spec_whole_days(first as int, second_end);
    let all_days = spec_whole_days(start, second_end);
    assert(stake_info.spec_claimed(first).spec_effective_end(second) == second_end);
    assert(first_days + second_days <= all_days) by {
        if first <= stake_info.stake_time {
            lemma_whole_days_add_up(start, first as int, second_end);
        } else if start <= second_end {
            lemma_whole_days_add_up(start, second_end, second_end);
        }
    }
    lemma_day_based_reward_adds_up(principal, first_days, second_days);
    lemma_day_based_reward_adds_up(
        principal,
        first_days + second_days,
        (all_days - first_days - second_days) as nat,
    );
}

/// Once all rewards are claimed, they stay claimed: every later claim is
/// refused, with `HasClaimedAllReward` unless the contract is paused, and a
/// withdrawal keeps the record as it is.
pub proof fn lemma_claimed_all_is_final(state: State, stake_info: StakeInfo, now: i64)
    requires
        stake_info.has_claimed_all,
    ensures
        spec_claim(state, stake_info, now) is Err,
        !state.paused ==> spec_claim(state, stake_info, now) == Err::<Staged, VIOPStakingError>(
            VIOPStakingError::HasClaimedAllReward,
        ),
        spec_withdraw(state, stake_info, now) matches Ok(staged) ==> staged.record.has_claimed_all,
{
}

/// While the clock does not run backwards, the date of the last claim never
/// decreases from one claim to the next, and a well-formed record stays well
/// formed.
pub proof fn lemma_claims_move_forward(state: State, stake_info: StakeInfo, now: i64)
    requires
        now >= stake_info.last_claim_at,
    ensures
        spec_claim(state, stake_info, now) matches Ok(staged) ==> {
            &&& staged.record.last_claim_at >= stake_info.last_claim_at
            &&& stake_info.wf() ==> staged.record.wf()
        },
{
}

/// In a well-formed record that was staked, maturity comes after the start
/// of the stake.
pub proof fn lemma_lock_is_positive(stake_info: StakeInfo)
    requires
        stake_info.wf(),
        stake_info.spec_tier() is Some,
    ensures
        stake_info.stake_time > stake_info.staked_at,
{
}

/// The round trip. Stake `amount`, claim for the first time at or after
/// maturity, then withdraw, each transfer carried out by the ledger: the
/// deposit moves `amount` into custody, the claim pays the maturity bonus of
/// the tier on the staked balance, and the withdrawal pays that balance and
/// no more. Between them the three transfers leave the user richer by the
/// bonus and by what the record held before, and custody poorer by as much.
/// After the claim no further claim is accepted.
pub proof fn lemma_round_trip(
    state: State,
    stake_info: StakeInfo,
    amount: u64,
    stake_time: StakeTime,
    staked_at: i64,
    claimed_at: i64,
    withdrawn_at: i64,
)
    requires
        !state.paused,
        stake_info.stake_balance + amount <= u64::MAX,
        staked_at + stake_time.spec_duration() <= i64::MAX,
        claimed_at >= staked_at + stake_time.spec_duration(),
        withdrawn_at >= claimed_at,
    ensures
        ({
            let balance = (stake_info.stake_balance + amount) as u64;
            let bonus = spec_capped(spec_maturity_bonus(balance as nat, stake_time));
            &&& spec_stake(state, stake_info, amount, stake_time, staked_at) matches Ok(deposit)
            &&& deposit.transfer == Transfer::spec_deposit(amount)
            &&& deposit.spec_settle(TransferOutcome::Success) matches Ok(staked)
            &&& staked.stake_balance == balance
            &&& spec_claim(state, staked, claimed_at) matches Ok(reward)
            &&& reward.transfer == Transfer::spec_payout(bonus)
            &&& reward.spec_settle(TransferOutcome::Success) matches Ok(claimed)
            &&& claimed.has_claimed_all
            &&& spec_claim(state, claimed, withdrawn_at) is Err
            &&& spec_withdraw(state, claimed, withdrawn_at) matches Ok(principal)
            &&& principal.transfer == Transfer::spec_payout(balance)
            &&& principal.spec_settle(TransferOutcome::Success) == Ok::<
                StakeInfo,
                VIOPStakingError,
            >(claimed)
            &&& deposit.transfer.credit(Holder::User) + reward.transfer.credit(Holder::User)
                + principal.transfer.credit(Holder::User) == bonus + stake_info.stake_balance
            &&& deposit.transfer.credit(Holder::Contract) + reward.transfer.credit(
                Holder::Contract,
            ) + principal.transfer.credit(Holder::Contract) == -(bonus
                + stake_info.stake_balance)
        }),
{
}

} // verus!
