use vstd::prelude::*;

verus! {

/// A token amount, in the token's smallest unit.
pub type Balance = u128;

/// The monotonically increasing block counter used as the accrual clock.
pub type BlockHeight = u64;

/// A coarse time unit (many blocks) used to gate the unstake lock.
pub type EpochHeight = u64;

/// A timestamp in nanoseconds.
pub type Timestamp = u64;

/// A user identity, as the host presents it.
pub type AccountId = String;

/// Storage consumption, in bytes.
pub type StorageUsage = u64;

/// The ambient execution context: everything an operation reads from the
/// host, passed explicitly so that the ledger's logic is a pure function
/// of its arguments.
#[derive(Debug)]
pub struct Ctx {
    /// Who invoked the current call.
    pub predecessor_id: AccountId,
    /// The live block height.
    pub block_height: BlockHeight,
    /// The current epoch.
    pub epoch_height: EpochHeight,
    /// The current time.
    pub block_timestamp: Timestamp,
    /// The payment attached to the call.
    pub attached_deposit: Balance,
}

/// Why a call was rejected. A rejected call never changes state.
#[derive(Clone, Copy, Debug, PartialEq, Eq, Structural)]
pub enum StakingError {
    /// The call must attach exactly one yocto as a confirmation fee.
    OneYoctoRequired,
    /// The call must attach at least one yocto.
    DepositRequired,
    /// The attached payment does not cover the storage cost.
    InsufficientStorageDeposit,
    /// The account has not been registered.
    NotRegistered,
    /// The pool is paused and accepts no new stake.
    ContractPaused,
    /// Deposits are only accepted from the designated token contract.
    WrongTokenContract,
    /// The unstake amount exceeds the account's stake balance.
    ExceedsStakeBalance,
    /// There is no reward to harvest.
    ZeroReward,
    /// The unstake lock has not elapsed yet.
    UnstakeLocked,
    /// There is no unstaked balance awaiting withdrawal.
    NothingToWithdraw,
    /// The external token transfer reported failure.
    TransferFailed,
}

} // verus!
