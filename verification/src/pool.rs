use vstd::prelude::*;

use crate::StakingContract;
use crate::types::Balance;
use crate::types::Ctx;

verus! {

/// A snapshot of the whole pool, as reported to a viewer.
pub struct PoolJson {
    pub total_stake_balance: Balance,
    /// Checkpointed pool reward plus everything accrued since.
    pub total_reward: Balance,
    pub total_staker: u128,
    pub is_paused: bool,
}

impl PoolJson {
    /// Renders the pool aggregate, folding the reward accrued since the
    /// last checkpoint into the reported total.
    pub fn from(pool: &StakingContract, ctx: &Ctx) -> (r: PoolJson)
        requires
            pool.config.wf(),
            pool.spec_pool_reward_ok(ctx.block_height),
            pool.pre_reward + pool.spec_pool_new_reward(ctx.block_height) <= u128::MAX,
        ensures
            r.total_stake_balance == pool.total_stake,
            r.total_reward == pool.pre_reward + pool.spec_pool_new_reward(ctx.block_height),
            r.total_staker == pool.num_staker,
            r.is_paused == pool.paused,
    {
        PoolJson {
            total_stake_balance: pool.total_stake,
            total_reward: pool.pre_reward + pool.internal_calculate_new_reward(None, ctx),
            total_staker: pool.num_staker,
            is_paused: pool.paused,
        }
    }
}

} // verus!
