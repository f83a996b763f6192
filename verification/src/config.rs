use vstd::prelude::*;

verus! {

/// Immutable reward-rate parameters and the unstake lock length.
///
/// The reward owed over a block span is
/// `stake * span * reward_num / reward_denom`, truncated.
#[derive(Clone, Copy, Debug, PartialEq, Eq, Structural)]
pub struct Config {
    /// Numerator of the per-block reward rate.
    pub reward_num: u32,
    /// Denominator of the per-block reward rate; must be positive.
    pub reward_denom: u64,
    /// How many epochs an unstaked balance stays locked before withdrawal.
    pub num_epoch_unlock: u64,
}

impl Config {
    /// A configuration the accrual engine can divide by.
    pub open spec fn wf(self) -> bool {
        self.reward_denom > 0
    }
}

impl Default for Config {
    /// Roughly a 15% yearly rate when one block passes per second.
    fn default() -> (c: Config)
        ensures
            c == (Config { reward_num: 715u32, reward_denom: 1_000_000_000u64, num_epoch_unlock: 1u64 }),
            c.wf(),
    {
        Config { reward_num: 715, reward_denom: 1_000_000_000, num_epoch_unlock: 1 }
    }
}

} // verus!
