//! The stake record that is kept for each user.

use vstd::prelude::*;
use crate::reward::day_based_reward;
use crate::reward::maturity_bonus;
use crate::reward::spec_capped;
use crate::reward::spec_day_based_reward;
use crate::reward::spec_maturity_bonus;
use crate::reward::spec_whole_days;
use crate::reward::whole_days;
use crate::tier::StakeTime;

verus! {

/// One user's stake.
#[derive(Debug, Clone, Copy, PartialEq, Eq, Structural)]
pub struct StakeInfo {
    /// The principal that is staked.
    pub stake_balance: u64,
    /// When the stake began.
    pub staked_at: i64,
    /// When rewards were last claimed; the start of the stake until then.
    pub last_claim_at: i64,
    /// Maturity: the start of the stake plus the lock duration.
    pub stake_time: i64,
    /// The maturity bonus that was granted, if one was.
    pub claim_balance: u64,
    /// Set once the rewards up to maturity have been paid.
    pub has_claimed_all: bool,
}

impl StakeInfo {
    /// The record of a user who has not staked yet.
    pub open spec fn spec_new() -> StakeInfo {
        StakeInfo {
            stake_balance: 0,
            staked_at: 0,
            last_claim_at: 0,
            stake_time: 0,
            claim_balance: 0,
            has_claimed_all: false,
        }
    }

    /// The lock tier of the stake: the one whose duration separates
    /// `staked_at` from `stake_time`. A record that was never staked has none.
    pub open spec fn spec_tier(&self) -> Option<StakeTime> {
        StakeTime::spec_from_duration(self.stake_time - self.staked_at)
    }

    /// Whether the record holds nothing and has no lock: the state in which a
    /// record is before the first stake.
    pub open spec fn never_staked(&self) -> bool {
        self.stake_time == self.staked_at && self.stake_balance == 0
    }

    /// What holds of every record that the operations of this crate produce
    /// while the clock does not run backwards:
    /// the last claim does not precede the stake, the rewards count as fully
    /// claimed only when the last claim reached maturity, and the record
    /// either carries one of the three locks, which makes maturity come after
    /// the start, or was never staked and holds nothing.
    pub open spec fn wf(&self) -> bool {
        &&& self.staked_at <= self.last_claim_at
        &&& self.has_claimed_all ==> self.last_claim_at >= self.stake_time
        &&& self.spec_tier() is Some || self.never_staked()
    }

    /// Where reward accrual stands at `now`: at `now` itself during the lock,
    /// at maturity from then on.
    pub open spec fn spec_effective_end(&self, now: i64) -> i64 {
        if now < self.stake_time {
            now
        } else {
            self.stake_time
        }
    }

    /// The day-based reward that is due at `now`: 0.4 % of the principal for
    /// each whole day between the last claim and `now`, days after maturity
    /// left out.
    pub open spec fn spec_accrued(&self, now: i64) -> u64 {
        spec_capped(
            spec_day_based_reward(
                self.stake_balance as nat,
                spec_whole_days(self.last_claim_at as int, self.spec_effective_end(now) as int),
            ),
        )
    }

    /// The tier whose bonus a claim at `now` is paid: that of the stake when
    /// `now` has reached maturity and nothing was claimed before, else none.
    pub open spec fn spec_bonus_tier(&self, now: i64) -> Option<StakeTime> {
        if now >= self.stake_time && self.last_claim_at == self.staked_at {
            self.spec_tier()
        } else {
            None
        }
    }

    /// What a claim at `now` pays: the maturity bonus where it is due, else
    /// the day-based reward.
    pub open spec fn spec_claim_payout(&self, now: i64) -> u64 {
        match self.spec_bonus_tier(now) {
            Some(tier) => spec_capped(spec_maturity_bonus(self.stake_balance as nat, tier)),
            None => self.spec_accrued(now),
        }
    }

    /// The record after a claim at `now`.
    pub open spec fn spec_claimed(&self, now: i64) -> StakeInfo {
        StakeInfo {
            stake_balance: self.stake_balance,
            staked_at: self.staked_at,
            last_claim_at: now,
            stake_time: self.stake_time,
            claim_balance: if self.spec_bonus_tier(now) is Some {
                self.spec_claim_payout(now)
            } else {
                self.claim_balance
            },
            has_claimed_all: self.has_claimed_all || now >= self.stake_time,
        }
    }

    /// The record after `amount` was staked at `now` for the lock `tier`.
    pub open spec fn spec_staked(&self, amount: u64, tier: StakeTime, now: i64) -> StakeInfo {
        StakeInfo {
            stake_balance: (self.stake_balance + amount) as u64,
            staked_at: now,
            last_claim_at: now,
            stake_time: (now + tier.spec_duration()) as i64,
            claim_balance: 0,
            has_claimed_all: false,
        }
    }

    /// The record of a user who has not staked yet: every amount and
    /// timestamp is zero, and nothing counts as claimed.
    pub fn new() -> (record: StakeInfo)
        ensures
            record == Self::spec_new(),
            record.wf(),
    {
        StakeInfo {
            stake_balance: 0,
            staked_at: 0,
            last_claim_at: 0,
            stake_time: 0,
            claim_balance: 0,
            has_claimed_all: false,
        }
    }

    /// Tells whether the record is well formed.
    pub fn is_wf(&self) -> (valid: bool)
        ensures
            valid == self.wf(),
    {
        let ordered = self.staked_at <= self.last_claim_at;
        let claimed_at_maturity = !self.has_claimed_all || self.last_claim_at >= self.stake_time;
        let never_staked = self.stake_time == self.staked_at && self.stake_balance == 0;
        ordered && claimed_at_maturity && (self.tier().is_some() || never_staked)
    }

    /// The lock tier of the stake, if the record was ever staked.
    pub fn tier(&self) -> (tier: Option<StakeTime>)
        ensures
            tier == self.spec_tier(),
    {
        StakeTime::from_span(self.staked_at, self.stake_time)
    }

    /// The day-based reward that is due at `now`.
    pub fn accrued(&self, now: i64) -> (reward: u64)
        ensures
            reward == self.spec_accrued(now),
    {
        let end: i64 = if now < self.stake_time {
            now
        } else {
            self.stake_time
        };
        day_based_reward(self.stake_balance, whole_days(self.last_claim_at, end))
    }

    /// The tier whose bonus a claim at `now` is paid, if the bonus is due.
    pub fn bonus_tier(&self, now: i64) -> (tier: Option<StakeTime>)
        ensures
            tier == self.spec_bonus_tier(now),
    {
        if now >= self.stake_time && self.last_claim_at == self.staked_at {
            self.tier()
        } else {
            None
        }
    }

    /// What a claim at `now` pays.
    pub fn claim_payout(&self, now: i64) -> (payout: u64)
        ensures
            payout == self.spec_claim_payout(now),
    {
        match self.bonus_tier(now) {
            Some(tier) => maturity_bonus(self.stake_balance, tier),
            None => self.accrued(now),
        }
    }
}

} // verus!
