use vstd::prelude::*;

use crate::account::Account;
use crate::account::Membership;
use crate::account_v1::AccountV1;

verus! {

/// The stored shape of a per-user record: either the legacy schema or the
/// current one. Old records are upgraded lazily, on every read, by the single
/// adapter [`UpgradableAccount::canonical`]; persistence always writes back
/// the current shape once a record is touched.
#[derive(Clone, Copy, Debug, PartialEq, Eq, Structural)]
pub enum UpgradableAccount {
    Version1(AccountV1),
    Current(Account),
}

impl UpgradableAccount {
    /// The version adapter, as a value: the identity on the current shape;
    /// for the legacy shape, a field-for-field carry-over plus the base
    /// membership tier for the newly introduced field.
    pub open spec fn spec_canonical(self) -> Account {
        match self {
            UpgradableAccount::Current(account) => account,
            UpgradableAccount::Version1(account) => Account {
                stake_balance: account.stake_balance,
                pre_reward: account.pre_reward,
                last_block_balance_change: account.last_block_balance_change,
                unstake_balance: account.unstake_balance,
                unstake_start_time: account.unstake_start_time,
                unstake_available_epoch: account.unstake_available_epoch,
                membership: Membership::Basic,
            },
        }
    }

    /// Upgrades the record to the current schema shape.
    pub fn canonical(self) -> (r: Account)
        ensures
            r == self.spec_canonical(),
    {
        match self {
            UpgradableAccount::Current(account) => account,
            UpgradableAccount::Version1(account) => Account {
                stake_balance: account.stake_balance,
                pre_reward: account.pre_reward,
                last_block_balance_change: account.last_block_balance_change,
                unstake_balance: account.unstake_balance,
                unstake_start_time: account.unstake_start_time,
                unstake_available_epoch: account.unstake_available_epoch,
                membership: Membership::Basic,
            },
        }
    }
}

impl From<Account> for UpgradableAccount {
    fn from(account: Account) -> (r: UpgradableAccount)
        ensures
            r == UpgradableAccount::Current(account),
    {
        UpgradableAccount::Current(account)
    }
}

impl vstd::std_specs::convert::FromSpecImpl<Account> for UpgradableAccount {
    open spec fn obeys_from_spec() -> bool {
        true
    }

    open spec fn from_spec(account: Account) -> UpgradableAccount {
        UpgradableAccount::Current(account)
    }
}

impl From<UpgradableAccount> for Account {
    fn from(upgradable_account: UpgradableAccount) -> (r: Account)
        ensures
            r == upgradable_account.spec_canonical(),
    {
        upgradable_account.canonical()
    }
}

impl vstd::std_specs::convert::FromSpecImpl<UpgradableAccount> for Account {
    open spec fn obeys_from_spec() -> bool {
        true
    }

    open spec fn from_spec(upgradable_account: UpgradableAccount) -> Account {
        upgradable_account.spec_canonical()
    }
}

/// A legacy-shape record read through the adapter keeps its stake, unstake
/// and checkpoint fields exactly, and gets the base membership tier.
pub proof fn lemma_upgrade_keeps_fields(account: AccountV1)
    ensures
        ({
            let upgraded = UpgradableAccount::Version1(account).spec_canonical();
            &&& upgraded.stake_balance == account.stake_balance
            &&& upgraded.pre_reward == account.pre_reward
            &&& upgraded.last_block_balance_change == account.last_block_balance_change
            &&& upgraded.unstake_balance == account.unstake_balance
            &&& upgraded.unstake_start_time == account.unstake_start_time
            &&& upgraded.unstake_available_epoch == account.unstake_available_epoch
            &&& upgraded.membership == Membership::Basic
        }),
{
}

} // verus!
