use vstd::prelude::*;

use crate::types::AccountId;
use crate::types::Balance;
use crate::types::BlockHeight;
use crate::types::EpochHeight;
use crate::types::Timestamp;

verus! {

/// An informational account tier, carried through but never read by the
/// arithmetic.
#[derive(Clone, Copy, Debug, PartialEq, Eq, Structural)]
pub enum Membership {
    Basic,
    Standard,
    Companion,
}

/// A per-user record in its current schema shape.
#[derive(Clone, Copy, Debug, PartialEq, Eq, Structural)]
pub struct Account {
    /// Amount currently earning reward.
    pub stake_balance: Balance,
    /// Reward accrued and checkpointed but not yet paid out.
    pub pre_reward: Balance,
    /// Block at which `pre_reward` last caught up with `stake_balance`.
    pub last_block_balance_change: BlockHeight,
    /// Amount moved out of staking, awaiting withdrawal after the lock.
    pub unstake_balance: Balance,
    /// When the current unstake lock began.
    pub unstake_start_time: Timestamp,
    /// The epoch at which the unstaked balance becomes withdrawable.
    pub unstake_available_epoch: EpochHeight,
    /// The account's tier.
    pub membership: Membership,
}

/// A snapshot of one account, as reported to a viewer.
pub struct AccountJson {
    pub account_id: AccountId,
    pub stake_balance: Balance,
    pub unstake_balance: Balance,
    /// Checkpointed reward plus the reward accrued since the checkpoint.
    pub reward: Balance,
    /// Whether the unstake lock has elapsed.
    pub can_withdraw: bool,
    pub unstake_start_timestamp: Timestamp,
    pub unstake_available_epoch: EpochHeight,
    pub current_epoch: EpochHeight,
    pub membership: Membership,
}

impl AccountJson {
    /// Renders an account, folding the reward accrued since the last
    /// checkpoint into the reported total.
    pub fn from(
        account_id: AccountId,
        new_reward: Balance,
        account: Account,
        current_epoch: EpochHeight,
    ) -> (r: AccountJson)
        requires
            account.pre_reward + new_reward <= u128::MAX,
        ensures
            r.account_id == account_id,
            r.stake_balance == account.stake_balance,
            r.unstake_balance == account.unstake_balance,
            r.reward == account.pre_reward + new_reward,
            r.can_withdraw == (account.unstake_available_epoch <= current_epoch),
            r.unstake_start_timestamp == account.unstake_start_time,
            r.unstake_available_epoch == account.unstake_available_epoch,
            r.current_epoch == current_epoch,
            r.membership == account.membership,
    {
        AccountJson {
            account_id,
            stake_balance: account.stake_balance,
            unstake_balance: account.unstake_balance,
            reward: account.pre_reward + new_reward,
            can_withdraw: account.unstake_available_epoch <= current_epoch,
            unstake_start_timestamp: account.unstake_start_time,
            unstake_available_epoch: account.unstake_available_epoch,
            current_epoch,
            membership: account.membership,
        }
    }
}

} // verus!
