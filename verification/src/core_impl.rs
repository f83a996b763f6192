use vstd::prelude::*;

use crate::StakingContract;
use crate::account::Account;
use crate::store::AccountEntry;
use crate::store::find_existing_index;
use crate::store::has_account;
use crate::store::lemma_count_stakers_update;
use crate::store::lemma_stored_at;
use crate::store::lemma_sum_stake_update;
use crate::store::lemma_update_keeps;
use crate::store::stored_account;
use crate::types::AccountId;
use crate::types::Balance;
use crate::types::Ctx;
use crate::types::StakingError;
use crate::upgradable_account::UpgradableAccount;

verus! {

/// A request for the host to deliver one external token transfer. Phase one
/// of the two-phase protocol: the ledger hands this value out and waits for
/// the callback carrying the outcome.
pub struct TransferRequest {
    /// Who receives the tokens.
    pub receiver_id: AccountId,
    /// How much to transfer.
    pub amount: Balance,
    /// A human-readable note delivered with the transfer.
    pub memo: String,
}

/// The single outcome the host reports for one transfer request. Phase two:
/// delivered exactly once per outstanding request.
#[derive(Clone, Copy, Debug, PartialEq, Eq, Structural)]
pub enum TransferOutcome {
    Successful,
    Failed,
}

/// What a withdrawal leaves in flight: the transfer to deliver and the
/// pre-withdrawal snapshot to restore if the transfer fails.
pub struct WithdrawPending {
    pub transfer: TransferRequest,
    pub old_account: Account,
}

/// An account record with its unstaked balance cleared: what withdrawal
/// phase one leaves behind, so that a second withdrawal in the same window
/// finds nothing to claim.
pub open spec fn spec_cleared(account: Account) -> Account {
    Account { unstake_balance: 0, ..account }
}

impl StakingContract {
    /// The reward an account could harvest now: its checkpointed reward plus
    /// everything accrued since the checkpoint.
    pub open spec fn spec_claimable(self, account: Account, block_height: u64) -> int {
        account.pre_reward + self.spec_account_new_reward(account, block_height)
    }

    /// Accepts a batch of tokens sent by a user through the token contract
    /// and stakes them for that user. Returns how many of the sent tokens
    /// were not used: always zero on success.
    pub fn ft_on_transfer(&mut self, sender_id: AccountId, amount: Balance, msg: String, ctx: &Ctx) -> (r: Result<Balance, StakingError>)
        requires
            old(self).wf(),
            amount >= 1,
            old(self).spec_deposit_arith_ok(sender_id@, amount, *ctx),
        ensures
            final(self).wf(),
            r == Err::<Balance, StakingError>(StakingError::NotRegistered) <==> !has_account(
                old(self).accounts@,
                sender_id@,
            ),
            r == Err::<Balance, StakingError>(StakingError::ContractPaused) <==> (has_account(
                old(self).accounts@,
                sender_id@,
            ) && old(self).paused),
            r == Err::<Balance, StakingError>(StakingError::WrongTokenContract) <==> (
            has_account(old(self).accounts@, sender_id@) && !old(self).paused
                && ctx.predecessor_id@ != old(self).ft_contract_id@),
            r.is_ok() <==> old(self).spec_deposit_allowed(sender_id@, *ctx),
            r == Ok::<Balance, StakingError>(0) || r.is_err(),
            r.is_err() ==> *final(self) == *old(self),
            r.is_ok() ==> StakingContract::spec_deposit_ok_post(*old(self), *final(self), sender_id@, amount, *ctx),
    {
        let _ = msg;
        match self.internal_deposit_and_stake(sender_id, amount, ctx) {
            Ok(()) => Ok(0),
            Err(e) => Err(e),
        }
    }

    /// Asks for the caller's accrued reward to be paid out. Nothing is
    /// mutated here: the ledger only hands out the transfer request, and the
    /// reward is cleared when the callback confirms the transfer.
    pub fn harvest(&mut self, ctx: &Ctx) -> (r: Result<TransferRequest, StakingError>)
        requires
            old(self).wf(),
            ctx.attached_deposit == 1 ==> has_account(old(self).accounts@, ctx.predecessor_id@),
            ctx.attached_deposit == 1 ==> ({
                let account = stored_account(old(self).accounts@, ctx.predecessor_id@).spec_canonical();
                &&& old(self).spec_account_reward_ok(account, ctx.block_height)
                &&& old(self).spec_claimable(account, ctx.block_height) <= u128::MAX
            }),
        ensures
            *final(self) == *old(self),
            r.is_err() <==> (ctx.attached_deposit != 1 || old(self).spec_claimable(
                stored_account(old(self).accounts@, ctx.predecessor_id@).spec_canonical(),
                ctx.block_height,
            ) == 0),
            r == Err::<TransferRequest, StakingError>(StakingError::OneYoctoRequired) <==> ctx.attached_deposit != 1,
            r == Err::<TransferRequest, StakingError>(StakingError::ZeroReward) <==> (
            ctx.attached_deposit == 1 && old(self).spec_claimable(
                stored_account(old(self).accounts@, ctx.predecessor_id@).spec_canonical(),
                ctx.block_height,
            ) == 0),
            r.is_ok() ==> ({
                let req = r.unwrap();
                &&& req.receiver_id@ == ctx.predecessor_id@
                &&& req.amount == old(self).spec_claimable(
                    stored_account(old(self).accounts@, ctx.predecessor_id@).spec_canonical(),
                    ctx.block_height,
                )
                &&& req.amount > 0
                &&& req.memo@ == "Harvest reward from staking"@
            }),
    {
        if !(ctx.attached_deposit == 1) {
            return Err(StakingError::OneYoctoRequired);
        }
        let idx = find_existing_index(&self.accounts, &ctx.predecessor_id);
        proof {
            lemma_stored_at(self.accounts@, idx as int);
        }
        let account = self.accounts[idx].account.canonical();

        let new_reward = self.internal_calculate_new_reward(Some(&account), ctx);
        let current_reward: Balance = account.pre_reward + new_reward;
        if current_reward == 0 {
            return Err(StakingError::ZeroReward);
        }

        Ok(TransferRequest {
            receiver_id: ctx.predecessor_id.clone(),
            amount: current_reward,
            memo: "Harvest reward from staking".to_owned(),
        })
    }

    /// Phase two of a harvest: the host reports the transfer's outcome. On
    /// success the paid reward is cleared from the account, the checkpoint
    /// moves to the confirmation block, and the pool's paid total grows; on
    /// failure nothing changes, since nothing was changed speculatively.
    pub fn ft_harvest_callback(&mut self, account_id: AccountId, amount: Balance, outcome: TransferOutcome, ctx: &Ctx) -> (r: Result<Balance, StakingError>)
        requires
            old(self).wf(),
            has_account(old(self).accounts@, account_id@),
            outcome == TransferOutcome::Successful ==> old(self).total_paid_reward + amount <= u128::MAX,
        ensures
            final(self).wf(),
            r == Err::<Balance, StakingError>(StakingError::TransferFailed) <==> outcome
                == TransferOutcome::Failed,
            r.is_ok() <==> outcome == TransferOutcome::Successful,
            r.is_err() ==> *final(self) == *old(self),
            r.is_ok() ==> r == Ok::<Balance, StakingError>(amount),
            r.is_ok() ==> ({
                let account = stored_account(old(self).accounts@, account_id@).spec_canonical();
                let updated = (Account {
                    pre_reward: 0,
                    last_block_balance_change: ctx.block_height,
                    ..account
                });
                &&& has_account(final(self).accounts@, account_id@)
                &&& stored_account(final(self).accounts@, account_id@)
                    == UpgradableAccount::Current(updated)
                &&& forall|id: Seq<char>|
                    has_account(final(self).accounts@, id) == has_account(old(self).accounts@, id)
                &&& forall|id: Seq<char>|
                    id != account_id@ && has_account(old(self).accounts@, id) ==> stored_account(
                        final(self).accounts@,
                        id,
                    ) == stored_account(old(self).accounts@, id)
                &&& final(self).total_paid_reward == old(self).total_paid_reward + amount
                &&& *final(self) == (StakingContract {
                    accounts: final(self).accounts,
                    total_paid_reward: final(self).total_paid_reward,
                    ..*old(self)
                })
            }),
    {
        match outcome {
            TransferOutcome::Failed => Err(StakingError::TransferFailed),
            TransferOutcome::Successful => {
                let idx = find_existing_index(&self.accounts, &account_id);
                proof {
                    lemma_stored_at(self.accounts@, idx as int);
                }
                let mut account = self.accounts[idx].account.canonical();
                account.pre_reward = 0;
                account.last_block_balance_change = ctx.block_height;

                let entry = AccountEntry {
                    account_id,
                    account: UpgradableAccount::Current(account),
                };
                proof {
                    lemma_sum_stake_update(self.accounts@, idx as int, entry);
                    lemma_count_stakers_update(self.accounts@, idx as int, entry);
                    lemma_update_keeps(self.accounts@, idx as int, entry);
                }
                self.accounts.set(idx, entry);
                self.total_paid_reward = self.total_paid_reward + amount;
                Ok(amount)
            },
        }
    }

    /// Moves part of the caller's stake into the locked unstake balance; the
    /// lock elapses after the configured number of epochs.
    pub fn unstake(&mut self, amount: Balance, ctx: &Ctx) -> (r: Result<(), StakingError>)
        requires
            old(self).wf(),
            ctx.attached_deposit == 1 ==> has_account(old(self).accounts@, ctx.predecessor_id@),
            ctx.attached_deposit == 1 ==> old(self).spec_unstake_arith_ok(ctx.predecessor_id@, amount, *ctx),
        ensures
            final(self).wf(),
            r == Err::<(), StakingError>(StakingError::OneYoctoRequired) <==> ctx.attached_deposit != 1,
            r == Err::<(), StakingError>(StakingError::ExceedsStakeBalance) <==> (
            ctx.attached_deposit == 1 && amount > stored_account(
                old(self).accounts@,
                ctx.predecessor_id@,
            ).spec_canonical().stake_balance),
            r.is_ok() <==> (ctx.attached_deposit == 1 && amount <= stored_account(
                old(self).accounts@,
                ctx.predecessor_id@,
            ).spec_canonical().stake_balance),
            r.is_err() ==> *final(self) == *old(self),
            r.is_ok() ==> StakingContract::spec_unstake_ok_post(*old(self), *final(self), ctx.predecessor_id@, amount, *ctx),
    {
        if !(ctx.attached_deposit == 1) {
            return Err(StakingError::OneYoctoRequired);
        }
        let account_id = ctx.predecessor_id.clone();
        self.internal_unstake(account_id, amount, ctx)
    }

    /// How withdrawal phase one rewrites the ledger: only the caller's
    /// unstaked balance is cleared, before the transfer is even requested,
    /// so the same funds cannot be claimed twice.
    pub open spec fn spec_withdraw_ok_post(pre: StakingContract, post: StakingContract, id: Seq<char>) -> bool {
        let account = stored_account(pre.accounts@, id).spec_canonical();
        &&& has_account(post.accounts@, id)
        &&& stored_account(post.accounts@, id) == UpgradableAccount::Current(spec_cleared(account))
        &&& forall|id2: Seq<char>| has_account(post.accounts@, id2) == has_account(pre.accounts@, id2)
        &&& forall|id2: Seq<char>|
            id2 != id && has_account(pre.accounts@, id2) ==> stored_account(post.accounts@, id2)
                == stored_account(pre.accounts@, id2)
        &&& post == (StakingContract { accounts: post.accounts, ..pre })
    }

    /// Clears the caller's unstaked balance once the lock has elapsed and
    /// returns it as a snapshot, before any transfer is requested.
    pub(crate) fn internal_withdraw(&mut self, account_id: AccountId, ctx: &Ctx) -> (r: Result<Account, StakingError>)
        requires
            old(self).wf(),
            has_account(old(self).accounts@, account_id@),
        ensures
            final(self).wf(),
            ({
                let account = stored_account(old(self).accounts@, account_id@).spec_canonical();
                &&& (r == Err::<Account, StakingError>(StakingError::UnstakeLocked) <==> account.unstake_available_epoch > ctx.epoch_height)
                &&& (r == Err::<Account, StakingError>(StakingError::NothingToWithdraw) <==> (
                account.unstake_available_epoch <= ctx.epoch_height && account.unstake_balance == 0))
                &&& (r.is_ok() <==> (account.unstake_available_epoch <= ctx.epoch_height
                    && account.unstake_balance > 0))
                &&& (r.is_ok() ==> r == Ok::<Account, StakingError>(account))
            }),
            r.is_err() ==> *final(self) == *old(self),
            r.is_ok() ==> StakingContract::spec_withdraw_ok_post(*old(self), *final(self), account_id@),
    {
        let idx = find_existing_index(&self.accounts, &account_id);
        proof {
            lemma_stored_at(self.accounts@, idx as int);
        }
        let account = self.accounts[idx].account.canonical();
        if account.unstake_available_epoch > ctx.epoch_height {
            return Err(StakingError::UnstakeLocked);
        }
        if account.unstake_balance == 0 {
            return Err(StakingError::NothingToWithdraw);
        }

        let cleared = Account {
            unstake_balance: 0,
            ..account
        };
        let entry = AccountEntry {
            account_id,
            account: UpgradableAccount::Current(cleared),
        };
        proof {
            lemma_sum_stake_update(self.accounts@, idx as int, entry);
            lemma_count_stakers_update(self.accounts@, idx as int, entry);
            lemma_update_keeps(self.accounts@, idx as int, entry);
        }
        self.accounts.set(idx, entry);
        Ok(account)
    }

    /// Asks for the caller's unstaked balance to be paid out after the lock
    /// has elapsed. The balance is cleared here, in phase one, so a second
    /// withdrawal in the callback window finds nothing; the returned
    /// snapshot is what the callback restores if the transfer fails.
    pub fn withdraw(&mut self, ctx: &Ctx) -> (r: Result<WithdrawPending, StakingError>)
        requires
            old(self).wf(),
            ctx.attached_deposit == 1 ==> has_account(old(self).accounts@, ctx.predecessor_id@),
        ensures
            final(self).wf(),
            r == Err::<WithdrawPending, StakingError>(StakingError::OneYoctoRequired) <==> ctx.attached_deposit != 1,
            ctx.attached_deposit == 1 ==> ({
                let account = stored_account(old(self).accounts@, ctx.predecessor_id@).spec_canonical();
                &&& (r == Err::<WithdrawPending, StakingError>(StakingError::UnstakeLocked) <==> account.unstake_available_epoch > ctx.epoch_height)
                &&& (r == Err::<WithdrawPending, StakingError>(StakingError::NothingToWithdraw) <==> (
                account.unstake_available_epoch <= ctx.epoch_height && account.unstake_balance == 0))
                &&& (r.is_ok() <==> (account.unstake_available_epoch <= ctx.epoch_height
                    && account.unstake_balance > 0))
                &&& (r.is_ok() ==> ({
                    let pending = r.unwrap();
                    &&& pending.old_account == account
                    &&& pending.transfer.receiver_id@ == ctx.predecessor_id@
                    &&& pending.transfer.amount == account.unstake_balance
                    &&& pending.transfer.memo@ == "Unstaked token from staking contract"@
                }))
            }),
            r.is_err() ==> *final(self) == *old(self),
            r.is_ok() ==> StakingContract::spec_withdraw_ok_post(*old(self), *final(self), ctx.predecessor_id@),
    {
        if !(ctx.attached_deposit == 1) {
            return Err(StakingError::OneYoctoRequired);
        }
        let account_id = ctx.predecessor_id.clone();
        let old_account = match self.internal_withdraw(account_id, ctx) {
            Ok(a) => a,
            Err(e) => {
                return Err(e);
            },
        };
        Ok(WithdrawPending {
            transfer: TransferRequest {
                receiver_id: ctx.predecessor_id.clone(),
                amount: old_account.unstake_balance,
                memo: "Unstaked token from staking contract".to_owned(),
            },
            old_account,
        })
    }

    /// Phase two of a withdrawal: the host reports the transfer's outcome.
    /// On success nothing more changes, the balance was already cleared in
    /// phase one; on failure the pre-withdrawal snapshot is restored exactly,
    /// as if the withdrawal never happened. Returns the amount paid out.
    pub fn ft_withdraw_callback(&mut self, account_id: AccountId, old_account: Account, outcome: TransferOutcome) -> (r: Balance)
        requires
            old(self).wf(),
            has_account(old(self).accounts@, account_id@),
            stored_account(old(self).accounts@, account_id@) == UpgradableAccount::Current(
                spec_cleared(old_account),
            ),
        ensures
            final(self).wf(),
            outcome == TransferOutcome::Successful ==> (*final(self) == *old(self) && r
                == old_account.unstake_balance),
            outcome == TransferOutcome::Failed ==> ({
                &&& r == 0
                &&& has_account(final(self).accounts@, account_id@)
                &&& stored_account(final(self).accounts@, account_id@)
                    == UpgradableAccount::Current(old_account)
                &&& forall|id: Seq<char>|
                    has_account(final(self).accounts@, id) == has_account(old(self).accounts@, id)
                &&& forall|id: Seq<char>|
                    id != account_id@ && has_account(old(self).accounts@, id) ==> stored_account(
                        final(self).accounts@,
                        id,
                    ) == stored_account(old(self).accounts@, id)
                &&& *final(self) == (StakingContract { accounts: final(self).accounts, ..*old(self) })
            }),
    {
        match outcome {
            TransferOutcome::Successful => old_account.unstake_balance,
            TransferOutcome::Failed => {
                let idx = find_existing_index(&self.accounts, &account_id);
                proof {
                    lemma_stored_at(self.accounts@, idx as int);
                }
                let entry = AccountEntry {
                    account_id,
                    account: UpgradableAccount::Current(old_account),
                };
                proof {
                    lemma_sum_stake_update(self.accounts@, idx as int, entry);
                    lemma_count_stakers_update(self.accounts@, idx as int, entry);
                    lemma_update_keeps(self.accounts@, idx as int, entry);
                }
                self.accounts.set(idx, entry);
                0
            },
        }
    }
}

/// Unstaking `amount` and then withdrawing once the lock elapses removes
/// `amount` from the stake balance exactly once, pays out the whole locked
/// balance, and clears it, so a second withdrawal finds nothing to pay.
pub proof fn lemma_unstake_then_withdraw(c: StakingContract, account: Account, amount: Balance, ctx: Ctx)
    requires
        amount <= account.stake_balance,
        account.unstake_balance + amount <= u128::MAX,
        account.pre_reward + c.spec_account_new_reward(account, ctx.block_height) <= u128::MAX,
        ctx.epoch_height + c.config.num_epoch_unlock <= u64::MAX,
    ensures
        ({
            let unstaked = c.spec_account_after_unstake(account, amount, ctx);
            let paid = unstaked.unstake_balance;
            let withdrawn = spec_cleared(unstaked);
            &&& unstaked.stake_balance == account.stake_balance - amount
            &&& paid == account.unstake_balance + amount
            &&& withdrawn.stake_balance == account.stake_balance - amount
            &&& withdrawn.unstake_balance == 0
            &&& spec_cleared(withdrawn) == withdrawn
        }),
{
}

} // verus!
