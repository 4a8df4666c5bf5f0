use voip_staking::reward::day_based_reward;
use voip_staking::reward::maturity_bonus;
use voip_staking::reward::whole_days;
use voip_staking::reward::REWARD_PER_DAY_PER_MILLE;
use voip_staking::tier::ONE_DAY_IN_UNIX;
use voip_staking::tier::ONE_HOUR_IN_UNIX;
use voip_staking::tier::ONE_HUNDRED_AND_EIGHTY_DAYS_IN_UNIX;
use voip_staking::tier::ONE_HUNDRED_DAYS_IN_UNIX;
use voip_staking::tier::THREE_HUNDRED_AND_SIXTY_DAYS_IN_UNIX;
use voip_staking::StakeTime;

#[test]
fn time_constants_are_built_from_the_hour() {
    assert_eq!(ONE_HOUR_IN_UNIX, 3600);
    assert_eq!(ONE_DAY_IN_UNIX, 24 * ONE_HOUR_IN_UNIX);
    assert_eq!(ONE_HUNDRED_DAYS_IN_UNIX, 100 * ONE_DAY_IN_UNIX);
    assert_eq!(ONE_HUNDRED_AND_EIGHTY_DAYS_IN_UNIX, 180 * ONE_DAY_IN_UNIX);
    assert_eq!(THREE_HUNDRED_AND_SIXTY_DAYS_IN_UNIX, 360 * ONE_DAY_IN_UNIX);
    assert_eq!(REWARD_PER_DAY_PER_MILLE, 4);
}

#[test]
fn tiers_have_their_durations_and_bonuses() {
    assert_eq!(StakeTime::OneHundredDays.duration(), 8_640_000);
    assert_eq!(StakeTime::OneHundredAndEightyDays.duration(), 15_552_000);
    assert_eq!(StakeTime::ThreeHundredAndSixtyDays.duration(), 31_104_000);
    assert_eq!(StakeTime::OneHundredDays.bonus_percent(), 56);
    assert_eq!(StakeTime::OneHundredAndEightyDays.bonus_percent(), 108);
    assert_eq!(StakeTime::ThreeHundredAndSixtyDays.bonus_percent(), 180);
}

#[test]
fn a_span_names_its_tier() {
    assert_eq!(StakeTime::from_span(0, 8_640_000), Some(StakeTime::OneHundredDays));
    assert_eq!(StakeTime::from_span(-5, 15_551_995), Some(StakeTime::OneHundredAndEightyDays));
    assert_eq!(
        StakeTime::from_span(1_700_000_000, 1_731_104_000),
        Some(StakeTime::ThreeHundredAndSixtyDays)
    );
    assert_eq!(StakeTime::from_span(0, 0), None);
    assert_eq!(StakeTime::from_span(0, 8_639_999), None);
    assert_eq!(StakeTime::from_span(8_640_000, 0), None);
    assert_eq!(StakeTime::from_span(i64::MIN, i64::MAX), None);
    assert_eq!(StakeTime::from_span(i64::MAX, i64::MIN), None);
}

#[test]
fn whole_days_counts_full_days_only() {
    assert_eq!(whole_days(0, 0), 0);
    assert_eq!(whole_days(0, 1), 0);
    assert_eq!(whole_days(0, 86_399), 0);
    assert_eq!(whole_days(0, 86_400), 1);
    assert_eq!(whole_days(0, 172_799), 1);
    assert_eq!(whole_days(1_000, 1_000 + 50 * 86_400), 50);
    assert_eq!(whole_days(-86_400, 86_400), 2);
}

#[test]
fn whole_days_of_a_reversed_span_is_zero() {
    assert_eq!(whole_days(86_400, 0), 0);
    assert_eq!(whole_days(10 * 86_400, 86_400), 0);
    assert_eq!(whole_days(i64::MAX, i64::MIN), 0);
}

#[test]
fn whole_days_spans_the_whole_range_of_timestamps() {
    assert_eq!(whole_days(i64::MIN, i64::MAX), 213_503_982_334_601);
}

#[test]
fn day_based_reward_is_four_per_mille_a_day() {
    assert_eq!(day_based_reward(1000, 50), 200);
    assert_eq!(day_based_reward(1000, 1), 4);
    assert_eq!(day_based_reward(1000, 100), 400);
    assert_eq!(day_based_reward(123_456_789, 77), 38_024_691);
}

#[test]
fn day_based_reward_for_zero_days_is_zero() {
    assert_eq!(day_based_reward(1000, 0), 0);
    assert_eq!(day_based_reward(u64::MAX, 0), 0);
    assert_eq!(day_based_reward(0, 0), 0);
    assert_eq!(day_based_reward(0, 360), 0);
}

#[test]
fn day_based_reward_rounds_down() {
    assert_eq!(day_based_reward(249, 1), 0);
    assert_eq!(day_based_reward(250, 1), 1);
    assert_eq!(day_based_reward(999, 1), 3);
    assert_eq!(day_based_reward(1, 249), 0);
    assert_eq!(day_based_reward(1, 250), 1);
}

#[test]
fn day_based_reward_is_capped_at_the_largest_amount() {
    assert_eq!(day_based_reward(u64::MAX, 250), u64::MAX);
    assert_eq!(day_based_reward(u64::MAX, 251), u64::MAX);
    assert_eq!(day_based_reward(u64::MAX, u64::MAX), u64::MAX);
    assert_eq!(day_based_reward(u64::MAX / 2, 500), u64::MAX - 1);
    assert_eq!(day_based_reward(5_124_095_576_030_431, 360), 7_378_697_629_483_820);
}

#[test]
fn maturity_bonus_follows_the_tier() {
    assert_eq!(maturity_bonus(1000, StakeTime::OneHundredDays), 560);
    assert_eq!(maturity_bonus(1000, StakeTime::OneHundredAndEightyDays), 1080);
    assert_eq!(maturity_bonus(1000, StakeTime::ThreeHundredAndSixtyDays), 1800);
    assert_eq!(maturity_bonus(0, StakeTime::ThreeHundredAndSixtyDays), 0);
}

#[test]
fn maturity_bonus_rounds_down() {
    assert_eq!(maturity_bonus(1, StakeTime::OneHundredDays), 0);
    assert_eq!(maturity_bonus(2, StakeTime::OneHundredDays), 1);
    assert_eq!(maturity_bonus(1, StakeTime::OneHundredAndEightyDays), 1);
    assert_eq!(maturity_bonus(3, StakeTime::ThreeHundredAndSixtyDays), 5);
}

#[test]
fn maturity_bonus_is_capped_at_the_largest_amount() {
    assert_eq!(maturity_bonus(u64::MAX, StakeTime::OneHundredDays), 10_330_176_681_277_348_904);
    assert_eq!(maturity_bonus(u64::MAX, StakeTime::OneHundredAndEightyDays), u64::MAX);
    assert_eq!(maturity_bonus(u64::MAX, StakeTime::ThreeHundredAndSixtyDays), u64::MAX);
    assert_eq!(
        maturity_bonus(10_248_191_152_060_862_008, StakeTime::ThreeHundredAndSixtyDays),
        u64::MAX - 1
    );
    assert_eq!(
        maturity_bonus(10_248_191_152_060_862_009, StakeTime::ThreeHundredAndSixtyDays),
        u64::MAX
    );
}
