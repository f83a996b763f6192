use vstd::prelude::*;

use crate::types::Balance;
use crate::types::BlockHeight;
use crate::types::EpochHeight;
use crate::types::Timestamp;

verus! {

/// A per-user record in the legacy schema shape: the current shape minus the
/// membership tier. Never mutated as such; every read upgrades it.
#[derive(Clone, Copy, Debug, PartialEq, Eq, Structural)]
pub struct AccountV1 {
    pub stake_balance: Balance,
    pub pre_reward: Balance,
    pub last_block_balance_change: BlockHeight,
    pub unstake_balance: Balance,
    pub unstake_start_time: Timestamp,
    pub unstake_available_epoch: EpochHeight,
}

} // verus!
