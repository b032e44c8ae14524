//! Staking reward/slot distribution policy and its validity rules: both
//! percentage schedules must total exactly one hundred percent, tier
//! thresholds and slot counts must correspond one to one, and a dynamic
//! threshold's amount must not undercut its minimum.

use vstd::prelude::*;

verus! {

/// One whole, as parts per million: the fixed-point representation of 100%.
pub const PERMILL_ONE: u32 = 1_000_000;

/// A fixed-point fraction in parts per million. A well-formed value holds at
/// most `PERMILL_ONE` parts.
#[derive(Clone, Copy, PartialEq, Eq, Structural, Debug)]
pub struct Permill {
    pub parts: u32,
}

impl Permill {
    /// A well-formed fraction does not exceed one whole.
    pub open spec fn is_wf(self) -> bool {
        self.parts <= PERMILL_ONE
    }

    /// Build a fraction directly from parts per million.
    pub fn from_parts(parts: u32) -> (r: Permill)
        requires
            parts <= PERMILL_ONE,
        ensures
            r.parts == parts,
            r.is_wf(),
    {
        Permill { parts }
    }

    /// Build a fraction from whole percentage points.
    pub fn from_percent(percent: u32) -> (r: Permill)
        requires
            percent <= 100,
        ensures
            r.parts == percent * 10_000,
            r.is_wf(),
    {
        Permill { parts: percent * 10_000 }
    }
}

/// The total parts per million held by a sequence of fractions.
pub open spec fn permill_sum(s: Seq<Permill>) -> int
    decreases s.len(),
{
    if s.len() == 0 {
        0
    } else {
        permill_sum(s.drop_last()) + s.last().parts
    }
}

/// Sum a schedule's fractions. The result is exact: parts fit in `u32` and
/// the count in `usize`, so a `u128` accumulator cannot overflow.
pub fn sum_permill(v: &Vec<Permill>) -> (r: u128)
    ensures
        r == permill_sum(v@),
{
    let mut acc: u128 = 0;
    let mut i: usize = 0;
    while i < v.len()
        invariant
            i <= v.len(),
            acc == permill_sum(v@.take(i as int)),
            acc <= i * (u32::MAX as u128),
        decreases v.len() - i,
    {
        proof {
            assert(v@.take(i + 1 as int).drop_last() =~= v@.take(i as int));
            assert(v@.take(i + 1 as int).last() == v@[i as int]);
        }
        acc = acc + v[i].parts as u128;
        i = i + 1;
    }
    proof {
        assert(v@.take(v@.len() as int) =~= v@);
    }
    acc
}

/// A staking-tier eligibility rule: either an amount that adjusts dynamically
/// but never below a fixed minimum, or a fixed amount.
#[derive(Clone, Copy, PartialEq, Eq, Structural, Debug)]
pub enum TierThreshold {
    DynamicTvlAmount { amount: u128, minimum_amount: u128 },
    FixedTvlAmount { amount: u128 },
}

impl TierThreshold {
    /// A dynamic threshold must not start below its own minimum.
    pub open spec fn is_wf(self) -> bool {
        match self {
            TierThreshold::DynamicTvlAmount { amount, minimum_amount } => amount >= minimum_amount,
            TierThreshold::FixedTvlAmount { .. } => true,
        }
    }

    /// Check well-formedness of one threshold.
    pub fn check(&self) -> (r: bool)
        ensures
            r == self.is_wf(),
    {
        match self {
            TierThreshold::DynamicTvlAmount { amount, minimum_amount } => amount >= minimum_amount,
            TierThreshold::FixedTvlAmount { .. } => true,
        }
    }
}

/// All thresholds of a schedule are well formed.
pub open spec fn thresholds_wf(s: Seq<TierThreshold>) -> bool {
    forall|i: int| 0 <= i < s.len() ==> (#[trigger] s[i]).is_wf()
}

/// The reward and slot distribution policy of the staking subsystem.
#[derive(Clone, PartialEq, Eq, Debug)]
pub struct StakingSchedule {
    /// Share of the staking reward pool assigned to each tier.
    pub reward_portion: Vec<Permill>,
    /// Share of the total slots assigned to each tier.
    pub slot_distribution: Vec<Permill>,
    /// Eligibility rule of each tier, ordered as supplied by the caller.
    pub tier_thresholds: Vec<TierThreshold>,
    /// Number of slots available in each tier.
    pub slots_per_tier: Vec<u16>,
}

/// Why a staking schedule was rejected.
#[derive(Clone, Copy, PartialEq, Eq, Structural, Debug)]
pub enum ScheduleError {
    /// The reward portions do not total exactly one whole.
    RewardPortionSum,
    /// The slot distribution does not total exactly one whole.
    SlotDistributionSum,
    /// Tier thresholds and slots per tier differ in length.
    TierSlotLengthMismatch,
    /// A dynamic tier threshold starts below its own minimum.
    ThresholdBelowMinimum,
}

impl StakingSchedule {
    /// A valid schedule: each percentage sequence totals exactly one whole,
    /// thresholds and slot counts correspond one to one, and every threshold
    /// is well formed.
    pub open spec fn is_valid(self) -> bool {
        &&& permill_sum(self.reward_portion@) == PERMILL_ONE
        &&& permill_sum(self.slot_distribution@) == PERMILL_ONE
        &&& self.tier_thresholds@.len() == self.slots_per_tier@.len()
        &&& thresholds_wf(self.tier_thresholds@)
    }

    /// Copy the schedule field by field, preserving every entry.
    pub fn duplicate(&self) -> (r: StakingSchedule)
        ensures
            r.reward_portion@ == self.reward_portion@,
            r.slot_distribution@ == self.slot_distribution@,
            r.tier_thresholds@ == self.tier_thresholds@,
            r.slots_per_tier@ == self.slots_per_tier@,
    {
        StakingSchedule {
            reward_portion: crate::clone_vec_copy(&self.reward_portion),
            slot_distribution: crate::clone_vec_copy(&self.slot_distribution),
            tier_thresholds: crate::clone_vec_copy(&self.tier_thresholds),
            slots_per_tier: crate::clone_vec_copy(&self.slots_per_tier),
        }
    }

    /// Validate the schedule, reporting the first rule it breaks: reward
    /// total, then slot total, then length correspondence, then thresholds.
    pub fn validate(&self) -> (r: Result<(), ScheduleError>)
        ensures
            r is Ok <==> self.is_valid(),
            r == Err::<(), ScheduleError>(ScheduleError::RewardPortionSum) <==> permill_sum(
                self.reward_portion@,
            ) != PERMILL_ONE,
            r == Err::<(), ScheduleError>(ScheduleError::SlotDistributionSum) <==> (permill_sum(
                self.reward_portion@,
            ) == PERMILL_ONE && permill_sum(self.slot_distribution@) != PERMILL_ONE),
            r == Err::<(), ScheduleError>(ScheduleError::TierSlotLengthMismatch) <==> (permill_sum(
                self.reward_portion@,
            ) == PERMILL_ONE && permill_sum(self.slot_distribution@) == PERMILL_ONE
                && self.tier_thresholds@.len() != self.slots_per_tier@.len()),
            r == Err::<(), ScheduleError>(ScheduleError::ThresholdBelowMinimum) <==> (permill_sum(
                self.reward_portion@,
            ) == PERMILL_ONE && permill_sum(self.slot_distribution@) == PERMILL_ONE
                && self.tier_thresholds@.len() == self.slots_per_tier@.len() && !thresholds_wf(
                self.tier_thresholds@,
            )),
    {
        if sum_permill(&self.reward_portion) != PERMILL_ONE as u128 {
            return Err(ScheduleError::RewardPortionSum);
        }
        if sum_permill(&self.slot_distribution) != PERMILL_ONE as u128 {
            return Err(ScheduleError::SlotDistributionSum);
        }
        if self.tier_thresholds.len() != self.slots_per_tier.len() {
            return Err(ScheduleError::TierSlotLengthMismatch);
        }
        let mut i: usize = 0;
        while i < self.tier_thresholds.len()
            invariant
                i <= self.tier_thresholds@.len(),
                permill_sum(self.reward_portion@) == PERMILL_ONE,
                permill_sum(self.slot_distribution@) == PERMILL_ONE,
                self.tier_thresholds@.len() == self.slots_per_tier@.len(),
                forall|j: int| 0 <= j < i ==> (#[trigger] self.tier_thresholds@[j]).is_wf(),
            decreases self.tier_thresholds@.len() - i,
        {
            if !self.tier_thresholds[i].check() {
                return Err(ScheduleError::ThresholdBelowMinimum);
            }
            i = i + 1;
        }
        Ok(())
    }
}

/// Unfold the total of a four-entry percentage sequence.
pub proof fn lemma_permill_sum4(s: Seq<Permill>)
    requires
        s.len() == 4,
    ensures
        permill_sum(s) == s[0].parts + s[1].parts + s[2].parts + s[3].parts,
{
    assert(s.drop_last() =~= s.take(3));
    assert(s.take(3).drop_last() =~= s.take(2));
    assert(s.take(2).drop_last() =~= s.take(1));
    assert(s.take(1).drop_last() =~= s.take(0));
    assert(permill_sum(s) == permill_sum(s.take(3)) + s[3].parts);
    assert(permill_sum(s.take(3)) == permill_sum(s.take(2)) + s[2].parts);
    assert(permill_sum(s.take(2)) == permill_sum(s.take(1)) + s[1].parts);
    assert(permill_sum(s.take(1)) == permill_sum(s.take(0)) + s[0].parts);
    assert(permill_sum(s.take(0)) == 0);
}

/// Law: any schedule accepted as valid has reward portions and slot shares
/// that each total exactly one hundred percent.
pub proof fn lemma_valid_schedule_totals(s: StakingSchedule)
    requires
        s.is_valid(),
    ensures
        permill_sum(s.reward_portion@) == PERMILL_ONE,
        permill_sum(s.slot_distribution@) == PERMILL_ONE,
{
}

/// Law: any schedule accepted as valid pairs each tier threshold with exactly
/// one slot count — the two sequences have equal length.
pub proof fn lemma_valid_schedule_tier_slot_correspondence(s: StakingSchedule)
    requires
        s.is_valid(),
    ensures
        s.tier_thresholds@.len() == s.slots_per_tier@.len(),
{
}

} // verus!
