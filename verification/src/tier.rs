//! The three lock tiers and the time constants they are built from.

use vstd::prelude::*;

verus! {

/// Seconds in one hour.
pub const ONE_HOUR_IN_UNIX: i64 = 3_600;

/// Seconds in one day.
pub const ONE_DAY_IN_UNIX: i64 = 86_400;

/// Seconds in the 100-day lock.
pub const ONE_HUNDRED_DAYS_IN_UNIX: i64 = 8_640_000;

/// Seconds in the 180-day lock.
pub const ONE_HUNDRED_AND_EIGHTY_DAYS_IN_UNIX: i64 = 15_552_000;

/// Seconds in the 360-day lock.
pub const THREE_HUNDRED_AND_SIXTY_DAYS_IN_UNIX: i64 = 31_104_000;

/// The lock duration a user chooses when staking.
#[derive(Debug, Clone, Copy, PartialEq, Eq, Structural)]
pub enum StakeTime {
    OneHundredDays,
    OneHundredAndEightyDays,
    ThreeHundredAndSixtyDays,
}

impl StakeTime {
    /// Length of the lock in seconds.
    pub open spec fn spec_duration(self) -> i64 {
        match self {
            StakeTime::OneHundredDays => ONE_HUNDRED_DAYS_IN_UNIX,
            StakeTime::OneHundredAndEightyDays => ONE_HUNDRED_AND_EIGHTY_DAYS_IN_UNIX,
            StakeTime::ThreeHundredAndSixtyDays => THREE_HUNDRED_AND_SIXTY_DAYS_IN_UNIX,
        }
    }

    /// Length of the lock in seconds.
    #[verifier::when_used_as_spec(spec_duration)]
    pub fn duration(self) -> (seconds: i64)
        ensures
            seconds == self.spec_duration(),
            seconds > 0,
    {
        match self {
            StakeTime::OneHundredDays => ONE_HUNDRED_DAYS_IN_UNIX,
            StakeTime::OneHundredAndEightyDays => ONE_HUNDRED_AND_EIGHTY_DAYS_IN_UNIX,
            StakeTime::ThreeHundredAndSixtyDays => THREE_HUNDRED_AND_SIXTY_DAYS_IN_UNIX,
        }
    }

    /// The maturity bonus of the tier, in percent of the principal.
    pub open spec fn spec_bonus_percent(self) -> u64 {
        match self {
            StakeTime::OneHundredDays => 56,
            StakeTime::OneHundredAndEightyDays => 108,
            StakeTime::ThreeHundredAndSixtyDays => 180,
        }
    }

    /// The maturity bonus of the tier, in percent of the principal.
    #[verifier::when_used_as_spec(spec_bonus_percent)]
    pub fn bonus_percent(self) -> (percent: u64)
        ensures
            percent == self.spec_bonus_percent(),
    {
        match self {
            StakeTime::OneHundredDays => 56,
            StakeTime::OneHundredAndEightyDays => 108,
            StakeTime::ThreeHundredAndSixtyDays => 180,
        }
    }

    /// The tier whose lock lasts `seconds`, if there is one.
    pub open spec fn spec_from_duration(seconds: int) -> Option<StakeTime> {
        if seconds == ONE_HUNDRED_DAYS_IN_UNIX {
            Some(StakeTime::OneHundredDays)
        } else if seconds == ONE_HUNDRED_AND_EIGHTY_DAYS_IN_UNIX {
            Some(StakeTime::OneHundredAndEightyDays)
        } else if seconds == THREE_HUNDRED_AND_SIXTY_DAYS_IN_UNIX {
            Some(StakeTime::ThreeHundredAndSixtyDays)
        } else {
            None
        }
    }

    /// The tier whose lock runs from `start` to `end`, if there is one.
    pub fn from_span(start: i64, end: i64) -> (tier: Option<StakeTime>)
        ensures
            tier == Self::spec_from_duration(end - start),
    {
        let seconds: i128 = end as i128 - start as i128;
        if seconds == ONE_HUNDRED_DAYS_IN_UNIX as i128 {
            Some(StakeTime::OneHundredDays)
        } else if seconds == ONE_HUNDRED_AND_EIGHTY_DAYS_IN_UNIX as i128 {
            Some(StakeTime::OneHundredAndEightyDays)
        } else if seconds == THREE_HUNDRED_AND_SIXTY_DAYS_IN_UNIX as i128 {
            Some(StakeTime::ThreeHundredAndSixtyDays)
        } else {
            None
        }
    }
}

} // verus!
