//! A staking ledger: users deposit a fungible token, accrue a
//! time-proportional reward, and later unstake and withdraw principal after a
//! lock period. The ledger is a pure state machine: every operation takes the
//! ambient host context (block height, epoch, caller, attached payment) as an
//! explicit [`types::Ctx`] value, and the asynchronous token transfers of
//! harvest and withdraw are modelled as a two-phase protocol: phase one
//! returns a transfer request for the host to deliver, phase two is a
//! callback carrying the single outcome.

pub mod account;
pub mod account_v1;
pub mod config;
pub mod core_impl;
pub mod enumeration;
pub mod internal;
pub mod pool;
pub mod staking_contract_v1;
pub mod store;
pub mod types;
pub mod upgradable_account;
pub mod utils;

use vstd::prelude::*;

use crate::config::Config;
use crate::store::AccountEntry;
use crate::store::count_stakers;
use crate::store::find_account_index;
use crate::store::has_account;
use crate::store::ids_unique;
use crate::store::stored_account;
use crate::store::sum_stake;
use crate::staking_contract_v1::StakingContractV1;
use crate::types::AccountId;
use crate::types::Balance;
use crate::types::BlockHeight;
use crate::types::Ctx;
use crate::types::StakingError;
use crate::upgradable_account::UpgradableAccount;
use crate::utils::at_least_one_yocto;

verus! {

/// What a registration call did.
#[derive(Clone, Copy, Debug, PartialEq, Eq, Structural)]
pub enum StorageOutcome {
    /// The account already existed; nothing changed and the whole payment
    /// is handed back.
    AlreadyRegistered,
    /// A fresh zero-balance record was created.
    Created,
}

/// Conservation: in a well-formed ledger the stake balances of all accounts
/// sum to the pool's `total_stake`. Every mutating operation ensures the
/// ledger stays well-formed, so this holds after each one.
pub proof fn lemma_stake_conservation(c: StakingContract)
    requires
        c.wf(),
    ensures
        sum_stake(c.accounts@) == c.total_stake as int,
{
}

/// The whole ledger: pool-wide aggregates plus the keyed account store.
pub struct StakingContract {
    /// The administrator.
    pub owner_id: AccountId,
    /// The fungible-token contract whose transfers fund deposits.
    pub ft_contract_id: AccountId,
    /// Reward-rate and lock-length parameters.
    pub config: Config,
    /// Sum of every account's stake balance.
    pub total_stake: Balance,
    /// Reward paid out by successful harvests so far.
    pub total_paid_reward: Balance,
    /// How many accounts hold a positive stake balance.
    pub num_staker: u128,
    /// Pool-wide reward accrued and checkpointed but not yet paid.
    pub pre_reward: Balance,
    /// Block at which `pre_reward` last caught up with `total_stake`.
    pub last_block_balance_change: BlockHeight,
    /// The per-user records, keyed by account id.
    pub accounts: Vec<AccountEntry>,
    /// When paused, the reward clock is frozen at `paused_block`.
    pub paused: bool,
    /// The block the reward clock froze at, if paused.
    pub paused_block: BlockHeight,
    /// Schema version of this record.
    pub version: u128,
}

impl StakingContract {
    /// Well-formedness: account ids are unique, the pool aggregates mirror
    /// the per-account balances, and the reward rate can be divided by.
    ///
    /// The conjunct `sum_stake(..) == total_stake` is the conservation law:
    /// summing `stake_balance` over all accounts always equals the pool's
    /// `total_stake`. Every mutating operation preserves it.
    pub open spec fn wf(self) -> bool {
        &&& ids_unique(self.accounts@)
        &&& sum_stake(self.accounts@) == self.total_stake as int
        &&& count_stakers(self.accounts@) == self.num_staker as int
        &&& self.config.wf()
    }

    /// The block the accrual engine reads: the live height, unless the pool
    /// is paused, in which case the clock is frozen at `paused_block`.
    pub open spec fn spec_effective_block(self, block_height: BlockHeight) -> int {
        if self.paused {
            self.paused_block as int
        } else {
            block_height as int
        }
    }

    /// How [`StakingContract::new`] fills the fields: an empty ledger whose
    /// reward clock starts at the given block.
    pub open spec fn is_fresh(
        self,
        owner_id: AccountId,
        ft_contract_id: AccountId,
        config: Config,
        block_height: BlockHeight,
    ) -> bool {
        &&& self.owner_id == owner_id
        &&& self.ft_contract_id == ft_contract_id
        &&& self.config == config
        &&& self.total_stake == 0
        &&& self.total_paid_reward == 0
        &&& self.num_staker == 0
        &&& self.pre_reward == 0
        &&& self.last_block_balance_change == block_height
        &&& self.accounts@ =~= Seq::<AccountEntry>::empty()
        &&& !self.paused
        &&& self.paused_block == 0
        &&& self.version == 2
    }

    /// Builds the ledger with the default reward configuration.
    pub fn new_default_config(owner_id: AccountId, ft_contract_id: AccountId, ctx: &Ctx) -> (c: StakingContract)
        ensures
            c.is_fresh(owner_id, ft_contract_id, (Config {
                reward_num: 715u32,
                reward_denom: 1_000_000_000u64,
                num_epoch_unlock: 1u64,
            }), ctx.block_height),
            c.wf(),
    {
        Self::new(owner_id, ft_contract_id, Config::default(), ctx)
    }

    /// Builds an empty ledger.
    pub fn new(owner_id: AccountId, ft_contract_id: AccountId, config: Config, ctx: &Ctx) -> (c: StakingContract)
        requires
            config.wf(),
        ensures
            c.is_fresh(owner_id, ft_contract_id, config, ctx.block_height),
            c.wf(),
    {
        let c = StakingContract {
            owner_id,
            ft_contract_id,
            config,
            total_stake: 0,
            total_paid_reward: 0,
            num_staker: 0,
            pre_reward: 0,
            last_block_balance_change: ctx.block_height,
            accounts: Vec::new(),
            paused: false,
            paused_block: 0,
            version: 2,
        };
        proof {
            assert(c.accounts@ =~= Seq::<AccountEntry>::empty());
        }
        c
    }

    /// Whether an account has been registered.
    pub fn exist_account(&self, account_id: AccountId) -> (r: bool)
        ensures
            r == has_account(self.accounts@, account_id@),
    {
        find_account_index(&self.accounts, &account_id).is_some()
    }

    /// Whether the reward clock is frozen.
    pub fn is_paused(&self) -> (r: bool)
        ensures
            r == self.paused,
    {
        self.paused
    }

    /// The schema version of this ledger record.
    pub fn get_version(&self) -> (r: u128)
        ensures
            r == self.version,
    {
        self.version
    }

    /// Which user a registration call is for: the named account if one was
    /// given, else the caller.
    pub open spec fn spec_registration_target(account_id: Option<AccountId>, ctx: Ctx) -> Seq<char> {
        match account_id {
            Some(id) => id@,
            None => ctx.predecessor_id@,
        }
    }

    /// Registers an account: creates a zero-balance record with its
    /// checkpoint at the current block. A no-op when the account already
    /// exists; the caller's payment is then refunded in full by the host.
    pub fn storage_deposit(&mut self, account_id: Option<AccountId>, ctx: &Ctx) -> (r: Result<StorageOutcome, StakingError>)
        requires
            old(self).wf(),
        ensures
            final(self).wf(),
            r == Err::<StorageOutcome, StakingError>(StakingError::DepositRequired) <==> ctx.attached_deposit < 1,
            r.is_err() ==> *final(self) == *old(self),
            ({
                let target = StakingContract::spec_registration_target(account_id, *ctx);
                &&& (r == Ok::<StorageOutcome, StakingError>(StorageOutcome::AlreadyRegistered)
                    <==> (ctx.attached_deposit >= 1 && has_account(old(self).accounts@, target)))
                &&& (r == Ok::<StorageOutcome, StakingError>(StorageOutcome::AlreadyRegistered)
                    ==> *final(self) == *old(self))
                &&& (r == Ok::<StorageOutcome, StakingError>(StorageOutcome::Created) <==> (
                ctx.attached_deposit >= 1 && !has_account(old(self).accounts@, target)))
                &&& (r == Ok::<StorageOutcome, StakingError>(StorageOutcome::Created) ==> {
                    &&& has_account(final(self).accounts@, target)
                    &&& stored_account(final(self).accounts@, target)
                        == UpgradableAccount::Current(StakingContract::spec_zero_account(ctx.block_height))
                    &&& forall|id: Seq<char>|
                        id != target ==> has_account(final(self).accounts@, id) == has_account(
                            old(self).accounts@,
                            id,
                        )
                    &&& forall|id: Seq<char>|
                        has_account(old(self).accounts@, id) ==> stored_account(
                            final(self).accounts@,
                            id,
                        ) == stored_account(old(self).accounts@, id)
                    &&& *final(self) == (StakingContract { accounts: final(self).accounts, ..*old(self) })
                })
            }),
    {
        if !at_least_one_yocto(ctx.attached_deposit) {
            return Err(StakingError::DepositRequired);
        }
        let target: AccountId = match account_id {
            Some(id) => id,
            None => ctx.predecessor_id.clone(),
        };
        if find_account_index(&self.accounts, &target).is_some() {
            Ok(StorageOutcome::AlreadyRegistered)
        } else {
            self.internal_create_account(target, ctx);
            Ok(StorageOutcome::Created)
        }
    }

    /// The one-time structural migration: remaps the previous schema of the
    /// whole ledger record onto the current one, field for field, stamping
    /// the new version.
    pub fn migrate(old_contract: StakingContractV1) -> (c: StakingContract)
        ensures
            c.owner_id == old_contract.owner_id,
            c.ft_contract_id == old_contract.ft_contract_id,
            c.config == old_contract.config,
            c.total_stake == old_contract.total_stake,
            c.total_paid_reward == old_contract.total_paid_reward,
            c.num_staker == old_contract.num_staker,
            c.pre_reward == old_contract.pre_reward,
            c.last_block_balance_change == old_contract.last_block_balance_change,
            c.accounts@ == old_contract.accounts@,
            c.paused == old_contract.paused,
            c.paused_block == old_contract.paused_block,
            c.version == 2,
            old_contract.wf() ==> c.wf(),
    {
        StakingContract {
            owner_id: old_contract.owner_id,
            ft_contract_id: old_contract.ft_contract_id,
            config: old_contract.config,
            total_stake: old_contract.total_stake,
            total_paid_reward: old_contract.total_paid_reward,
            num_staker: old_contract.num_staker,
            pre_reward: old_contract.pre_reward,
            last_block_balance_change: old_contract.last_block_balance_change,
            accounts: old_contract.accounts,
            paused: old_contract.paused,
            paused_block: old_contract.paused_block,
            version: 2,
        }
    }

    /// Freezes the reward clock at the current block: every accrual computed
    /// from now on, per-account or pool-wide, reads this block instead of the
    /// live height.
    pub fn pause(&mut self, ctx: &Ctx)
        ensures
            final(self).paused,
            final(self).paused_block == ctx.block_height,
            *final(self) == (StakingContract {
                paused: true,
                paused_block: ctx.block_height,
                ..*old(self)
            }),
            old(self).wf() ==> final(self).wf(),
    {
        self.paused = true;
        self.paused_block = ctx.block_height;
    }
}

} // verus!
