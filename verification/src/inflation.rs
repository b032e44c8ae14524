//! Fixed-point inflation parameters. The runtime collaborator supplies the
//! default values; genesis assembly only carries them through unchanged.

use vstd::prelude::*;

verus! {

/// One whole, as parts per quintillion: the fixed-point representation of
/// 100% used by the inflation subsystem.
pub const PERQUINTILL_ONE: u64 = 1_000_000_000_000_000_000;

/// A fixed-point fraction in parts per quintillion. A well-formed value holds
/// at most `PERQUINTILL_ONE` parts.
#[derive(Clone, Copy, PartialEq, Eq, Structural, Debug)]
pub struct Perquintill {
    pub parts: u64,
}

impl Perquintill {
    /// A well-formed fraction does not exceed one whole.
    pub open spec fn is_wf(self) -> bool {
        self.parts <= PERQUINTILL_ONE
    }

    /// Build a fraction directly from parts per quintillion.
    pub fn from_parts(parts: u64) -> (r: Perquintill)
        requires
            parts <= PERQUINTILL_ONE,
        ensures
            r.parts == parts,
            r.is_wf(),
    {
        Perquintill { parts }
    }
}

/// The inflation subsystem's fixed protocol parameters, passed through to
/// genesis state unchanged.
#[derive(Clone, Copy, PartialEq, Eq, Structural, Debug)]
pub struct InflationParameters {
    /// Upper bound on yearly inflation.
    pub max_inflation_rate: Perquintill,
    /// Share of inflation assigned to the treasury.
    pub treasury_part: Perquintill,
    /// Share of inflation assigned to collators.
    pub collators_part: Perquintill,
    /// Share of inflation assigned to decentralized applications.
    pub dapps_part: Perquintill,
    /// Fixed share of inflation assigned to stakers.
    pub base_stakers_part: Perquintill,
    /// Stake-dependent share of inflation assigned to stakers.
    pub adjustable_stakers_part: Perquintill,
    /// Share of inflation reserved for staking bonuses.
    pub bonus_part: Perquintill,
    /// Staking rate at which the adjustable share pays out in full.
    pub ideal_staking_rate: Perquintill,
}

} // verus!
