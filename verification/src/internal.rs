use vstd::prelude::*;

use vstd::arithmetic::div_mod::lemma_basic_div;

use crate::StakingContract;
use crate::account::Account;
use crate::account::Membership;
use crate::store::AccountEntry;
use crate::store::find_account_index;
use crate::store::find_existing_index;
use crate::store::has_account;
use crate::store::lemma_count_stakers_bounds;
use crate::store::lemma_count_stakers_push;
use crate::store::lemma_count_stakers_update;
use crate::store::lemma_push_keeps;
use crate::store::lemma_stored_at;
use crate::store::lemma_sum_stake_bound;
use crate::store::lemma_sum_stake_push;
use crate::store::lemma_sum_stake_update;
use crate::store::lemma_update_keeps;
use crate::store::stored_account;
use crate::types::AccountId;
use crate::types::Balance;
use crate::types::BlockHeight;
use crate::types::Ctx;
use crate::types::StakingError;
use crate::upgradable_account::UpgradableAccount;

verus! {

/// The reward owed for holding `stake` from `from_block` to `to_block` at
/// the rate `num / denom`: `stake * (to_block - from_block) * num / denom`,
/// multiplied out before the single truncating division.
pub open spec fn spec_accrue(stake: int, from_block: int, to_block: int, num: int, denom: int) -> int {
    stake * (to_block - from_block) * num / denom
}

/// Accruing over an empty block span yields nothing.
pub proof fn lemma_accrue_zero_span(stake: int, block: int, num: int, denom: int)
    requires
        denom > 0,
    ensures
        spec_accrue(stake, block, block, num, denom) == 0,
{
    assert(stake * (block - block) * num == 0) by (nonlinear_arith);
    lemma_basic_div(0, denom);
}

/// The reward accrual engine, stateless: used identically for a single
/// account and for the pool aggregate. Truncates toward zero.
pub fn accrue(stake: Balance, from_block: BlockHeight, to_block: BlockHeight, num: u32, denom: u64) -> (r: Balance)
    requires
        denom > 0,
        from_block <= to_block,
        (num as int) * (stake as int) <= u128::MAX,
        (num as int) * (stake as int) * (to_block - from_block) <= u128::MAX,
    ensures
        r == spec_accrue(stake as int, from_block as int, to_block as int, num as int, denom as int),
{
    let cnt_block: u128 = (to_block - from_block) as u128;
    proof {
        assert((num as int) * (stake as int) >= 0) by (nonlinear_arith);
        assert((num as int) * (stake as int) * (cnt_block as int) >= 0) by (nonlinear_arith)
            requires (num as int) * (stake as int) >= 0, cnt_block >= 0;
        assert((num as int) * (stake as int) * (cnt_block as int) == (stake as int) * (cnt_block as int) * (num as int)) by (nonlinear_arith);
    }
    let product: u128 = (num as u128) * stake * cnt_block;
    product / (denom as u128)
}

impl StakingContract {
    /// The reward an account has earned since its last checkpoint, read at
    /// the effective block (frozen while paused).
    pub open spec fn spec_account_new_reward(self, account: Account, block_height: BlockHeight) -> int {
        spec_accrue(
            account.stake_balance as int,
            account.last_block_balance_change as int,
            self.spec_effective_block(block_height),
            self.config.reward_num as int,
            self.config.reward_denom as int,
        )
    }

    /// The reward the whole pool has earned since its last checkpoint.
    pub open spec fn spec_pool_new_reward(self, block_height: BlockHeight) -> int {
        spec_accrue(
            self.total_stake as int,
            self.last_block_balance_change as int,
            self.spec_effective_block(block_height),
            self.config.reward_num as int,
            self.config.reward_denom as int,
        )
    }

    /// The block span is non-negative and the accrual product fits the
    /// arithmetic domain, for a balance/checkpoint pair.
    pub open spec fn spec_new_reward_ok(self, stake: int, last_change: int, block_height: BlockHeight) -> bool {
        let eff = self.spec_effective_block(block_height);
        &&& eff >= last_change
        &&& (self.config.reward_num as int) * stake <= u128::MAX
        &&& (self.config.reward_num as int) * stake * (eff - last_change) <= u128::MAX
    }

    /// [`StakingContract::spec_new_reward_ok`] for an account's pair.
    pub open spec fn spec_account_reward_ok(self, account: Account, block_height: BlockHeight) -> bool {
        self.spec_new_reward_ok(
            account.stake_balance as int,
            account.last_block_balance_change as int,
            block_height,
        )
    }

    /// [`StakingContract::spec_new_reward_ok`] for the pool's pair.
    pub open spec fn spec_pool_reward_ok(self, block_height: BlockHeight) -> bool {
        self.spec_new_reward_ok(
            self.total_stake as int,
            self.last_block_balance_change as int,
            block_height,
        )
    }

    /// Pause freezes accrual: while the pool is paused, the reward computed
    /// for any account and for the pool aggregate is the same at every block
    /// height, no matter how many blocks elapse.
    pub proof fn lemma_pause_freezes_accrual(self, account: Account, b1: BlockHeight, b2: BlockHeight)
        requires
            self.paused,
        ensures
            self.spec_account_new_reward(account, b1) == self.spec_account_new_reward(account, b2),
            self.spec_pool_new_reward(b1) == self.spec_pool_new_reward(b2),
    {
    }

    /// Computes the reward accrued since the last checkpoint: for one
    /// account when given one, else for the pool aggregate. The two cases
    /// run the same engine on a different balance/checkpoint pair.
    pub(crate) fn internal_calculate_new_reward(&self, account: Option<&Account>, ctx: &Ctx) -> (r: Balance)
        requires
            self.config.wf(),
            match account {
                Some(a) => self.spec_account_reward_ok(*a, ctx.block_height),
                None => self.spec_pool_reward_ok(ctx.block_height),
            },
        ensures
            r == match account {
                Some(a) => self.spec_account_new_reward(*a, ctx.block_height),
                None => self.spec_pool_new_reward(ctx.block_height),
            },
    {
        let last_block: BlockHeight = if self.paused {
            self.paused_block
        } else {
            ctx.block_height
        };
        let last_change: BlockHeight = match account {
            Some(a) => a.last_block_balance_change,
            None => self.last_block_balance_change,
        };
        let stake: Balance = match account {
            Some(a) => a.stake_balance,
            None => self.total_stake,
        };
        accrue(stake, last_change, last_block, self.config.reward_num, self.config.reward_denom)
    }

    /// A deposit is accepted when the sender is registered, the pool is not
    /// paused, and the caller is the designated token contract.
    pub open spec fn spec_deposit_allowed(self, sender: Seq<char>, ctx: Ctx) -> bool {
        &&& has_account(self.accounts@, sender)
        &&& !self.paused
        &&& ctx.predecessor_id@ == self.ft_contract_id@
    }

    /// The account record after a deposit: pending reward checkpointed, the
    /// amount staked, the checkpoint moved to the current block.
    pub open spec fn spec_account_after_deposit(self, account: Account, amount: Balance, ctx: Ctx) -> Account {
        Account {
            stake_balance: (account.stake_balance + amount) as Balance,
            pre_reward: (account.pre_reward + self.spec_account_new_reward(account, ctx.block_height)) as Balance,
            last_block_balance_change: ctx.block_height,
            unstake_balance: account.unstake_balance,
            unstake_start_time: account.unstake_start_time,
            unstake_available_epoch: account.unstake_available_epoch,
            membership: account.membership,
        }
    }

    /// The arithmetic of an accepted deposit stays in bounds.
    pub open spec fn spec_deposit_arith_ok(self, sender: Seq<char>, amount: Balance, ctx: Ctx) -> bool {
        self.spec_deposit_allowed(sender, ctx) ==> {
            let account = stored_account(self.accounts@, sender).spec_canonical();
            &&& self.spec_account_reward_ok(account, ctx.block_height)
            &&& account.pre_reward + self.spec_account_new_reward(account, ctx.block_height) <= u128::MAX
            &&& account.stake_balance + amount <= u128::MAX
            &&& self.spec_pool_reward_ok(ctx.block_height)
            &&& self.pre_reward + self.spec_pool_new_reward(ctx.block_height) <= u128::MAX
            &&& self.total_stake + amount <= u128::MAX
        }
    }

    /// How an accepted deposit of `amount` by `sender` rewrites the ledger.
    pub open spec fn spec_deposit_ok_post(pre: StakingContract, post: StakingContract, sender: Seq<char>, amount: Balance, ctx: Ctx) -> bool {
        let account = stored_account(pre.accounts@, sender).spec_canonical();
        let updated = pre.spec_account_after_deposit(account, amount, ctx);
        &&& has_account(post.accounts@, sender)
        &&& stored_account(post.accounts@, sender) == UpgradableAccount::Current(updated)
        &&& forall|id: Seq<char>| has_account(post.accounts@, id) == has_account(pre.accounts@, id)
        &&& forall|id: Seq<char>|
            id != sender && has_account(pre.accounts@, id) ==> stored_account(post.accounts@, id)
                == stored_account(pre.accounts@, id)
        &&& post.total_stake == pre.total_stake + amount
        &&& post.pre_reward == pre.pre_reward + pre.spec_pool_new_reward(ctx.block_height)
        &&& post.last_block_balance_change == ctx.block_height
        &&& post.num_staker == pre.num_staker + if account.stake_balance == 0 { 1int } else { 0int }
        &&& post.owner_id == pre.owner_id
        &&& post.ft_contract_id == pre.ft_contract_id
        &&& post.config == pre.config
        &&& post.total_paid_reward == pre.total_paid_reward
        &&& post.paused == pre.paused
        &&& post.paused_block == pre.paused_block
        &&& post.version == pre.version
    }

    /// Checkpoints the sender's pending reward, stakes the deposited amount,
    /// and updates the pool aggregate in lock-step.
    pub(crate) fn internal_deposit_and_stake(&mut self, sender_id: AccountId, amount: Balance, ctx: &Ctx) -> (r: Result<(), StakingError>)
        requires
            old(self).wf(),
            amount >= 1,
            old(self).spec_deposit_arith_ok(sender_id@, amount, *ctx),
        ensures
            final(self).wf(),
            r == Err::<(), StakingError>(StakingError::NotRegistered) <==> !has_account(
                old(self).accounts@,
                sender_id@,
            ),
            r == Err::<(), StakingError>(StakingError::ContractPaused) <==> (has_account(
                old(self).accounts@,
                sender_id@,
            ) && old(self).paused),
            r == Err::<(), StakingError>(StakingError::WrongTokenContract) <==> (has_account(
                old(self).accounts@,
                sender_id@,
            ) && !old(self).paused && ctx.predecessor_id@ != old(self).ft_contract_id@),
            r.is_ok() <==> old(self).spec_deposit_allowed(sender_id@, *ctx),
            r.is_err() ==> *final(self) == *old(self),
            r.is_ok() ==> StakingContract::spec_deposit_ok_post(*old(self), *final(self), sender_id@, amount, *ctx),
    {
        let idx = match find_account_index(&self.accounts, &sender_id) {
            Some(i) => i,
            None => {
                return Err(StakingError::NotRegistered);
            },
        };
        if self.paused {
            return Err(StakingError::ContractPaused);
        }
        if !(self.ft_contract_id == ctx.predecessor_id) {
            return Err(StakingError::WrongTokenContract);
        }
        proof {
            lemma_stored_at(self.accounts@, idx as int);
        }
        let mut account = self.accounts[idx].account.canonical();
        let is_new_staker: bool = account.stake_balance == 0;

        let new_reward = self.internal_calculate_new_reward(Some(&account), ctx);
        account.pre_reward = account.pre_reward + new_reward;
        account.stake_balance = account.stake_balance + amount;
        account.last_block_balance_change = ctx.block_height;
        let entry = AccountEntry { account_id: sender_id, account: UpgradableAccount::Current(account) };
        proof {
            lemma_sum_stake_update(self.accounts@, idx as int, entry);
            lemma_count_stakers_update(self.accounts@, idx as int, entry);
            lemma_count_stakers_bounds(self.accounts@);
            lemma_update_keeps(self.accounts@, idx as int, entry);
        }
        let n: usize = self.accounts.len();
        self.accounts.set(idx, entry);

        let new_global_reward = self.internal_calculate_new_reward(None, ctx);
        self.pre_reward = self.pre_reward + new_global_reward;
        self.total_stake = self.total_stake + amount;
        self.last_block_balance_change = ctx.block_height;

        if is_new_staker {
            proof {
                assert(old(self).num_staker <= n);
            }
            self.num_staker = self.num_staker + 1;
        }
        Ok(())
    }

    /// The account record after unstaking `amount`: pending reward
    /// checkpointed, the amount moved from stake to the locked unstake
    /// balance, and the lock rescheduled from now.
    pub open spec fn spec_account_after_unstake(self, account: Account, amount: Balance, ctx: Ctx) -> Account {
        Account {
            stake_balance: (account.stake_balance - amount) as Balance,
            pre_reward: (account.pre_reward + self.spec_account_new_reward(account, ctx.block_height)) as Balance,
            last_block_balance_change: ctx.block_height,
            unstake_balance: (account.unstake_balance + amount) as Balance,
            unstake_start_time: ctx.block_timestamp,
            unstake_available_epoch: (ctx.epoch_height + self.config.num_epoch_unlock) as u64,
            membership: account.membership,
        }
    }

    /// The arithmetic of an accepted unstake stays in bounds.
    pub open spec fn spec_unstake_arith_ok(self, id: Seq<char>, amount: Balance, ctx: Ctx) -> bool {
        has_account(self.accounts@, id) ==> {
            let account = stored_account(self.accounts@, id).spec_canonical();
            amount <= account.stake_balance ==> {
                &&& self.spec_account_reward_ok(account, ctx.block_height)
                &&& account.pre_reward + self.spec_account_new_reward(account, ctx.block_height) <= u128::MAX
                &&& account.unstake_balance + amount <= u128::MAX
                &&& ctx.epoch_height + self.config.num_epoch_unlock <= u64::MAX
                &&& self.spec_pool_reward_ok(ctx.block_height)
                &&& self.pre_reward + self.spec_pool_new_reward(ctx.block_height) <= u128::MAX
            }
        }
    }

    /// How an accepted unstake of `amount` by `id` rewrites the ledger.
    pub open spec fn spec_unstake_ok_post(pre: StakingContract, post: StakingContract, id: Seq<char>, amount: Balance, ctx: Ctx) -> bool {
        let account = stored_account(pre.accounts@, id).spec_canonical();
        let updated = pre.spec_account_after_unstake(account, amount, ctx);
        &&& has_account(post.accounts@, id)
        &&& stored_account(post.accounts@, id) == UpgradableAccount::Current(updated)
        &&& forall|id2: Seq<char>| has_account(post.accounts@, id2) == has_account(pre.accounts@, id2)
        &&& forall|id2: Seq<char>|
            id2 != id && has_account(pre.accounts@, id2) ==> stored_account(post.accounts@, id2)
                == stored_account(pre.accounts@, id2)
        &&& post.total_stake == pre.total_stake - amount
        &&& post.pre_reward == pre.pre_reward + pre.spec_pool_new_reward(ctx.block_height)
        &&& post.last_block_balance_change == ctx.block_height
        &&& post.num_staker == pre.num_staker - if account.stake_balance > 0 && amount == account.stake_balance { 1int } else { 0int }
        &&& post.owner_id == pre.owner_id
        &&& post.ft_contract_id == pre.ft_contract_id
        &&& post.config == pre.config
        &&& post.total_paid_reward == pre.total_paid_reward
        &&& post.paused == pre.paused
        &&& post.paused_block == pre.paused_block
        &&& post.version == pre.version
    }

    /// Checkpoints the account's pending reward, moves `amount` from its
    /// stake balance into the locked unstake balance, reschedules the lock,
    /// and updates the pool aggregate in lock-step.
    pub(crate) fn internal_unstake(&mut self, account_id: AccountId, amount: Balance, ctx: &Ctx) -> (r: Result<(), StakingError>)
        requires
            old(self).wf(),
            has_account(old(self).accounts@, account_id@),
            old(self).spec_unstake_arith_ok(account_id@, amount, *ctx),
        ensures
            final(self).wf(),
            r == Err::<(), StakingError>(StakingError::ExceedsStakeBalance) <==> amount
                > stored_account(old(self).accounts@, account_id@).spec_canonical().stake_balance,
            r.is_ok() <==> amount <= stored_account(
                old(self).accounts@,
                account_id@,
            ).spec_canonical().stake_balance,
            r.is_err() ==> *final(self) == *old(self),
            r.is_ok() ==> StakingContract::spec_unstake_ok_post(*old(self), *final(self), account_id@, amount, *ctx),
    {
        let idx = find_existing_index(&self.accounts, &account_id);
        proof {
            lemma_stored_at(self.accounts@, idx as int);
        }
        let mut account = self.accounts[idx].account.canonical();
        if amount > account.stake_balance {
            return Err(StakingError::ExceedsStakeBalance);
        }

        let new_reward = self.internal_calculate_new_reward(Some(&account), ctx);
        account.pre_reward = account.pre_reward + new_reward;
        account.last_block_balance_change = ctx.block_height;

        let was_staker: bool = account.stake_balance > 0;
        account.stake_balance = account.stake_balance - amount;
        account.unstake_balance = account.unstake_balance + amount;
        account.unstake_start_time = ctx.block_timestamp;
        account.unstake_available_epoch = ctx.epoch_height + self.config.num_epoch_unlock;

        let entry = AccountEntry { account_id, account: UpgradableAccount::Current(account) };
        proof {
            lemma_sum_stake_update(self.accounts@, idx as int, entry);
            lemma_count_stakers_update(self.accounts@, idx as int, entry);
            lemma_sum_stake_bound(self.accounts@, idx as int);
            lemma_update_keeps(self.accounts@, idx as int, entry);
            lemma_count_stakers_bounds(self.accounts@.update(idx as int, entry));
        }
        self.accounts.set(idx, entry);

        if account.stake_balance == 0 && was_staker {
            self.num_staker = self.num_staker - 1;
        }

        let new_contract_reward = self.internal_calculate_new_reward(None, ctx);
        self.pre_reward = self.pre_reward + new_contract_reward;
        self.total_stake = self.total_stake - amount;
        self.last_block_balance_change = ctx.block_height;
        Ok(())
    }

    /// A freshly registered record: zero balances, checkpoint at the current
    /// block, base membership tier.
    pub open spec fn spec_zero_account(block_height: BlockHeight) -> Account {
        Account {
            stake_balance: 0,
            pre_reward: 0,
            last_block_balance_change: block_height,
            unstake_balance: 0,
            unstake_start_time: 0,
            unstake_available_epoch: 0,
            membership: Membership::Basic,
        }
    }

    /// Creates a zero-balance record for a new user.
    pub(crate) fn internal_create_account(&mut self, account_id: AccountId, ctx: &Ctx)
        requires
            old(self).wf(),
            !has_account(old(self).accounts@, account_id@),
        ensures
            final(self).wf(),
            has_account(final(self).accounts@, account_id@),
            stored_account(final(self).accounts@, account_id@) == UpgradableAccount::Current(
                StakingContract::spec_zero_account(ctx.block_height),
            ),
            forall|id: Seq<char>|
                id != account_id@ ==> has_account(final(self).accounts@, id) == has_account(
                    old(self).accounts@,
                    id,
                ),
            forall|id: Seq<char>|
                has_account(old(self).accounts@, id) ==> stored_account(final(self).accounts@, id)
                    == stored_account(old(self).accounts@, id),
            *final(self) == (StakingContract { accounts: final(self).accounts, ..*old(self) }),
    {
        let account = Account {
            stake_balance: 0,
            pre_reward: 0,
            last_block_balance_change: ctx.block_height,
            unstake_balance: 0,
            unstake_start_time: 0,
            unstake_available_epoch: 0,
            membership: Membership::Basic,
        };
        let entry = AccountEntry { account_id, account: UpgradableAccount::Current(account) };
        proof {
            lemma_sum_stake_push(self.accounts@, entry);
            lemma_count_stakers_push(self.accounts@, entry);
            lemma_push_keeps(self.accounts@, entry);
        }
        self.accounts.push(entry);
    }
}

} // verus!
