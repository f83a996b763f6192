use vstd::prelude::*;

use crate::types::Balance;
use crate::types::StakingError;
use crate::types::StorageUsage;

verus! {

/// Whether a call attached at least one yocto, the minimum confirmation fee.
pub fn at_least_one_yocto(attached_deposit: Balance) -> (r: bool)
    ensures
        r == (attached_deposit >= 1),
{
    attached_deposit >= 1
}

/// How much of an attached payment to hand back after charging for
/// `storage_used` bytes at `byte_cost` per byte. Rejected when the payment
/// does not cover the cost; a rejected call refunds everything.
pub fn refund_amount(attached_deposit: Balance, byte_cost: Balance, storage_used: StorageUsage) -> (r: Result<Balance, StakingError>)
    requires
        byte_cost * storage_used <= u128::MAX,
    ensures
        attached_deposit >= byte_cost * storage_used ==> r == Ok::<Balance, StakingError>(
            (attached_deposit - byte_cost * storage_used) as Balance,
        ),
        attached_deposit < byte_cost * storage_used ==> r == Err::<Balance, StakingError>(
            StakingError::InsufficientStorageDeposit,
        ),
{
    proof {
        assert(byte_cost * (storage_used as int) >= 0) by (nonlinear_arith)
            requires
                byte_cost >= 0,
                storage_used >= 0,
        ;
    }
    let cost: Balance = byte_cost * (storage_used as Balance);
    if attached_deposit >= cost {
        Ok(attached_deposit - cost)
    } else {
        Err(StakingError::InsufficientStorageDeposit)
    }
}

} // verus!
