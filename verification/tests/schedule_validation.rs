//! Staking-schedule validation: totals, tier/slot correspondence, threshold
//! well-formedness, and each rejection reason.

use astar_chain_spec::schedule::{Permill, ScheduleError, StakingSchedule, TierThreshold};

fn percents(ps: &[u32]) -> Vec<Permill> {
    ps.iter().map(|&p| Permill::from_percent(p)).collect()
}

fn fixed_tiers(n: usize) -> Vec<TierThreshold> {
    (0..n).map(|i| TierThreshold::FixedTvlAmount { amount: (i as u128 + 1) * 1000 }).collect()
}

#[test]
fn dev_schedule_is_accepted() {
    let s = StakingSchedule {
        reward_portion: percents(&[40, 30, 20, 10]),
        slot_distribution: percents(&[10, 20, 30, 40]),
        tier_thresholds: fixed_tiers(4),
        slots_per_tier: vec![10, 20, 30, 40],
    };
    assert_eq!(s.validate(), Ok(()));
}

#[test]
fn length_mismatch_is_rejected() {
    let s = StakingSchedule {
        reward_portion: percents(&[40, 30, 20, 10]),
        slot_distribution: percents(&[10, 20, 30, 40]),
        tier_thresholds: fixed_tiers(4),
        slots_per_tier: vec![10, 20, 30],
    };
    assert_eq!(s.validate(), Err(ScheduleError::TierSlotLengthMismatch));
}

#[test]
fn reward_portion_sum_below_total_is_rejected() {
    let s = StakingSchedule {
        reward_portion: percents(&[40, 30, 20, 5]),
        slot_distribution: percents(&[10, 20, 30, 40]),
        tier_thresholds: fixed_tiers(4),
        slots_per_tier: vec![10, 20, 30, 40],
    };
    assert_eq!(s.validate(), Err(ScheduleError::RewardPortionSum));
}

#[test]
fn slot_distribution_sum_above_total_is_rejected() {
    let s = StakingSchedule {
        reward_portion: percents(&[40, 30, 20, 10]),
        slot_distribution: percents(&[10, 20, 30, 45]),
        tier_thresholds: fixed_tiers(4),
        slots_per_tier: vec![10, 20, 30, 40],
    };
    assert_eq!(s.validate(), Err(ScheduleError::SlotDistributionSum));
}

#[test]
fn dynamic_threshold_below_its_minimum_is_rejected() {
    let s = StakingSchedule {
        reward_portion: percents(&[50, 50]),
        slot_distribution: percents(&[60, 40]),
        tier_thresholds: vec![
            TierThreshold::DynamicTvlAmount { amount: 100, minimum_amount: 200 },
            TierThreshold::FixedTvlAmount { amount: 50 },
        ],
        slots_per_tier: vec![1, 2],
    };
    assert_eq!(s.validate(), Err(ScheduleError::ThresholdBelowMinimum));
}

#[test]
fn empty_schedule_is_rejected_for_its_totals() {
    let s = StakingSchedule {
        reward_portion: vec![],
        slot_distribution: vec![],
        tier_thresholds: vec![],
        slots_per_tier: vec![],
    };
    assert_eq!(s.validate(), Err(ScheduleError::RewardPortionSum));
}

#[test]
fn from_percent_scales_to_parts_per_million() {
    assert_eq!(Permill::from_percent(40).parts, 400_000);
    assert_eq!(Permill::from_percent(100).parts, 1_000_000);
    assert_eq!(Permill::from_percent(0).parts, 0);
}
