//! Reward arithmetic: whole elapsed days, the day-based reward and the
//! maturity bonus. All amounts are integers; what does not fit in 64 bits is
//! capped at `u64::MAX`.

use vstd::prelude::*;
use crate::tier::StakeTime;
use crate::tier::ONE_DAY_IN_UNIX;

verus! {

/// Reward per whole day, in thousandths of the principal (0.4 %).
pub const REWARD_PER_DAY_PER_MILLE: u64 = 4;

/// The whole days that lie between `from` and `to`. A partial day does not
/// count, and an empty or reversed span holds no day.
pub open spec fn spec_whole_days(from: int, to: int) -> nat {
    if to > from {
        ((to - from) / (ONE_DAY_IN_UNIX as int)) as nat
    } else {
        0
    }
}

/// 0.4 % of `principal` for each of `days` days, rounded down.
pub open spec fn spec_day_based_reward(principal: nat, days: nat) -> nat {
    days * principal * (REWARD_PER_DAY_PER_MILLE as nat) / 1000
}

/// The lump sum of a tier: 56 %, 108 % or 180 % of `principal`, rounded down.
pub open spec fn spec_maturity_bonus(principal: nat, tier: StakeTime) -> nat {
    principal * (tier.spec_bonus_percent() as nat) / 100
}

/// `amount` as a token amount: itself where it fits, else `u64::MAX`.
pub open spec fn spec_capped(amount: nat) -> u64 {
    if amount > u64::MAX {
        u64::MAX
    } else {
        amount as u64
    }
}

/// Counts the whole days between two timestamps.
pub fn whole_days(from: i64, to: i64) -> (days: u64)
    ensures
        days == spec_whole_days(from as int, to as int),
        to < from + ONE_DAY_IN_UNIX ==> days == 0,
{
    if to > from {
        let seconds: u64 = (to as i128 - from as i128) as u64;
        let day: u64 = ONE_DAY_IN_UNIX as u64;
        assert(seconds < day ==> seconds / day == 0) by (nonlinear_arith)
            requires
                day > 0,
        ;
        seconds / day
    } else {
        0
    }
}

/// The reward for `days` whole days on `principal`.
pub fn day_based_reward(principal: u64, days: u64) -> (reward: u64)
    ensures
        reward == spec_capped(spec_day_based_reward(principal as nat, days as nat)),
        days == 0 ==> reward == 0,
{
    assert(days * principal <= u64::MAX * u64::MAX) by (nonlinear_arith)
        requires
            days <= u64::MAX,
            principal <= u64::MAX,
    ;
    // 4 / 1000 is 1 / 250: dividing by 250 keeps the product within 128 bits
    let product: u128 = (days as u128) * (principal as u128);
    let reward: u128 = product / 250;
    if reward > u64::MAX as u128 {
        u64::MAX
    } else {
        reward as u64
    }
}

/// The lump sum that a first claim at or after maturity pays on `principal`.
pub fn maturity_bonus(principal: u64, tier: StakeTime) -> (bonus: u64)
    ensures
        bonus == spec_capped(spec_maturity_bonus(principal as nat, tier)),
{
    let percent: u128 = tier.bonus_percent() as u128;
    assert(principal * percent <= u64::MAX * 180) by (nonlinear_arith)
        requires
            principal <= u64::MAX,
            percent <= 180,
    ;
    let bonus: u128 = (principal as u128) * percent / 100;
    if bonus > u64::MAX as u128 {
        u64::MAX
    } else {
        bonus as u64
    }
}

} // verus!
