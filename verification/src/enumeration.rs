use vstd::prelude::*;

use crate::StakingContract;
use crate::account::AccountJson;
use crate::pool::PoolJson;
use crate::store::find_existing_index;
use crate::store::has_account;
use crate::store::lemma_stored_at;
use crate::store::stored_account;
use crate::types::AccountId;
use crate::types::Ctx;

verus! {

impl StakingContract {
    /// Reports one account: balances, total reward owed so far, and whether
    /// the unstake lock has elapsed.
    pub fn get_account_info(&self, account_id: &AccountId, ctx: &Ctx) -> (r: AccountJson)
        requires
            self.wf(),
            has_account(self.accounts@, account_id@),
            ({
                let account = stored_account(self.accounts@, account_id@).spec_canonical();
                &&& self.spec_account_reward_ok(account, ctx.block_height)
                &&& self.spec_claimable(account, ctx.block_height) <= u128::MAX
            }),
        ensures
            ({
                let account = stored_account(self.accounts@, account_id@).spec_canonical();
                &&& r.account_id@ == account_id@
                &&& r.stake_balance == account.stake_balance
                &&& r.unstake_balance == account.unstake_balance
                &&& r.reward == self.spec_claimable(account, ctx.block_height)
                &&& r.can_withdraw == (account.unstake_available_epoch <= ctx.epoch_height)
                &&& r.unstake_start_timestamp == account.unstake_start_time
                &&& r.unstake_available_epoch == account.unstake_available_epoch
                &&& r.current_epoch == ctx.epoch_height
                &&& r.membership == account.membership
            }),
    {
        let idx = find_existing_index(&self.accounts, account_id);
        proof {
            lemma_stored_at(self.accounts@, idx as int);
        }
        let account = self.accounts[idx].account.canonical();
        let new_reward = self.internal_calculate_new_reward(Some(&account), ctx);
        AccountJson::from(account_id.clone(), new_reward, account, ctx.epoch_height)
    }

    /// Reports the pool aggregate.
    pub fn get_pool_info(&self, ctx: &Ctx) -> (r: PoolJson)
        requires
            self.wf(),
            self.spec_pool_reward_ok(ctx.block_height),
            self.pre_reward + self.spec_pool_new_reward(ctx.block_height) <= u128::MAX,
        ensures
            r.total_stake_balance == self.total_stake,
            r.total_reward == self.pre_reward + self.spec_pool_new_reward(ctx.block_height),
            r.total_staker == self.num_staker,
            r.is_paused == self.paused,
    {
        PoolJson::from(self, ctx)
    }
}

} // verus!
