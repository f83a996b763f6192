use vstd::prelude::*;

use crate::config::Config;
use crate::store::AccountEntry;
use crate::store::count_stakers;
use crate::store::ids_unique;
use crate::store::sum_stake;
use crate::types::AccountId;
use crate::types::Balance;
use crate::types::BlockHeight;

verus! {

/// The previous schema of the whole ledger record: the current one minus the
/// version field. Read once by the one-time structural migration.
pub struct StakingContractV1 {
    pub owner_id: AccountId,
    pub ft_contract_id: AccountId,
    pub config: Config,
    pub total_stake: Balance,
    pub total_paid_reward: Balance,
    pub num_staker: u128,
    pub pre_reward: Balance,
    pub last_block_balance_change: BlockHeight,
    pub accounts: Vec<AccountEntry>,
    pub paused: bool,
    pub paused_block: BlockHeight,
}

impl StakingContractV1 {
    /// Well-formedness of the legacy ledger record, matching
    /// [`crate::StakingContract::wf`].
    pub open spec fn wf(self) -> bool {
        &&& ids_unique(self.accounts@)
        &&& sum_stake(self.accounts@) == self.total_stake as int
        &&& count_stakers(self.accounts@) == self.num_staker as int
        &&& self.config.wf()
    }
}

} // verus!
