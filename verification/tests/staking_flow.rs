use staking_contract::StakingContract;
use staking_contract::account::Account;
use staking_contract::core_impl::TransferOutcome;
use staking_contract::types::Ctx;
use staking_contract::types::StakingError;

fn ctx(predecessor: &str, block: u64, epoch: u64, deposit: u128) -> Ctx {
    Ctx {
        predecessor_id: predecessor.to_string(),
        block_height: block,
        epoch_height: epoch,
        block_timestamp: block * 1_000,
        attached_deposit: deposit,
    }
}

fn new_contract(block: u64) -> StakingContract {
    StakingContract::new_default_config(
        "owner".to_string(),
        "ft_contract".to_string(),
        &ctx("owner", block, 1, 0),
    )
}

fn account_of(contract: &StakingContract, id: &str) -> Account {
    for entry in contract.accounts.iter() {
        if entry.account_id == id {
            return Account::from(entry.account);
        }
    }
    panic!("account not found");
}

fn stake_sum(contract: &StakingContract) -> u128 {
    let mut sum: u128 = 0;
    for entry in contract.accounts.iter() {
        sum += Account::from(entry.account).stake_balance;
    }
    sum
}

#[test]
fn test_conservation_over_operations() {
    let mut contract = new_contract(10);
    assert_eq!(stake_sum(&contract), contract.total_stake);

    contract
        .storage_deposit(Some("alice".to_string()), &ctx("alice", 10, 1, 1))
        .unwrap();
    assert_eq!(stake_sum(&contract), contract.total_stake);

    contract
        .storage_deposit(Some("bob".to_string()), &ctx("bob", 11, 1, 1))
        .unwrap();
    assert_eq!(stake_sum(&contract), contract.total_stake);

    contract
        .ft_on_transfer("alice".to_string(), 5_000, "s".to_string(), &ctx("ft_contract", 12, 1, 0))
        .unwrap();
    assert_eq!(stake_sum(&contract), contract.total_stake);
    assert_eq!(contract.total_stake, 5_000);

    contract
        .ft_on_transfer("bob".to_string(), 2_500, "s".to_string(), &ctx("ft_contract", 13, 1, 0))
        .unwrap();
    assert_eq!(stake_sum(&contract), contract.total_stake);
    assert_eq!(contract.num_staker, 2);

    contract.unstake(1_500, &ctx("alice", 14, 1, 1)).unwrap();
    assert_eq!(stake_sum(&contract), contract.total_stake);
    assert_eq!(contract.total_stake, 6_000);

    contract.unstake(2_500, &ctx("bob", 15, 1, 1)).unwrap();
    assert_eq!(stake_sum(&contract), contract.total_stake);
    assert_eq!(contract.total_stake, 3_500);
    assert_eq!(contract.num_staker, 1);
}

#[test]
fn test_unstake_more_than_stake_rejected() {
    let mut contract = new_contract(10);
    contract
        .storage_deposit(Some("alice".to_string()), &ctx("alice", 10, 1, 1))
        .unwrap();
    contract
        .ft_on_transfer("alice".to_string(), 1_000, "s".to_string(), &ctx("ft_contract", 10, 1, 0))
        .unwrap();

    let before = account_of(&contract, "alice");
    let total_before = contract.total_stake;
    let stakers_before = contract.num_staker;

    let r = contract.unstake(1_001, &ctx("alice", 20, 2, 1));
    assert_eq!(r, Err(StakingError::ExceedsStakeBalance));

    // No state change on rejection.
    assert_eq!(account_of(&contract, "alice"), before);
    assert_eq!(contract.total_stake, total_before);
    assert_eq!(contract.num_staker, stakers_before);
}

#[test]
fn test_unstake_then_withdraw_flow() {
    let mut contract = new_contract(10);
    contract
        .storage_deposit(Some("alice".to_string()), &ctx("alice", 10, 1, 1))
        .unwrap();
    contract
        .ft_on_transfer("alice".to_string(), 1_000, "s".to_string(), &ctx("ft_contract", 10, 5, 0))
        .unwrap();

    // Unstake 400 at epoch 5: locked until epoch 6 (one epoch of lock).
    contract.unstake(400, &ctx("alice", 20, 5, 1)).unwrap();
    let account = account_of(&contract, "alice");
    assert_eq!(account.stake_balance, 600);
    assert_eq!(account.unstake_balance, 400);
    assert_eq!(account.unstake_available_epoch, 6);

    // Withdrawing before the lock elapses is rejected with no state change.
    let r = contract.withdraw(&ctx("alice", 30, 5, 1));
    assert!(matches!(r, Err(StakingError::UnstakeLocked)));
    assert_eq!(account_of(&contract, "alice"), account);

    // After the lock, the unstaked balance is cleared before the transfer
    // completes, and the stake balance was reduced exactly once.
    let pending = match contract.withdraw(&ctx("alice", 40, 6, 1)) {
        Ok(p) => p,
        Err(_) => panic!("withdraw refused"),
    };
    assert_eq!(pending.transfer.amount, 400);
    assert_eq!(pending.transfer.receiver_id, "alice".to_string());
    assert_eq!(pending.old_account.unstake_balance, 400);
    let cleared = account_of(&contract, "alice");
    assert_eq!(cleared.unstake_balance, 0);
    assert_eq!(cleared.stake_balance, 600);

    // A second withdrawal in the callback window finds nothing: no double pay.
    let r = contract.withdraw(&ctx("alice", 41, 6, 1));
    assert!(matches!(r, Err(StakingError::NothingToWithdraw)));

    // The successful callback changes nothing further.
    let paid = contract.ft_withdraw_callback(
        "alice".to_string(),
        pending.old_account,
        TransferOutcome::Successful,
    );
    assert_eq!(paid, 400);
    assert_eq!(account_of(&contract, "alice"), cleared);
}

#[test]
fn test_withdraw_rollback_on_transfer_failure() {
    let mut contract = new_contract(10);
    contract
        .storage_deposit(Some("alice".to_string()), &ctx("alice", 10, 1, 1))
        .unwrap();
    contract
        .ft_on_transfer("alice".to_string(), 1_000, "s".to_string(), &ctx("ft_contract", 10, 5, 0))
        .unwrap();
    contract.unstake(250, &ctx("alice", 20, 5, 1)).unwrap();

    let snapshot = account_of(&contract, "alice");
    let pending = match contract.withdraw(&ctx("alice", 40, 6, 1)) {
        Ok(p) => p,
        Err(_) => panic!("withdraw refused"),
    };
    assert_eq!(pending.old_account, snapshot);
    assert_eq!(account_of(&contract, "alice").unstake_balance, 0);

    // The transfer fails: the rollback restores the exact snapshot.
    let paid = contract.ft_withdraw_callback(
        "alice".to_string(),
        pending.old_account,
        TransferOutcome::Failed,
    );
    assert_eq!(paid, 0);
    assert_eq!(account_of(&contract, "alice"), snapshot);
}

#[test]
fn test_deposit_rejections() {
    let mut contract = new_contract(10);
    contract
        .storage_deposit(Some("alice".to_string()), &ctx("alice", 10, 1, 1))
        .unwrap();

    // Unregistered sender.
    let r = contract.ft_on_transfer("mallory".to_string(), 5, "s".to_string(), &ctx("ft_contract", 11, 1, 0));
    assert_eq!(r, Err(StakingError::NotRegistered));

    // Wrong caller: deposits must come from the token contract.
    let r = contract.ft_on_transfer("alice".to_string(), 5, "s".to_string(), &ctx("alice", 11, 1, 0));
    assert_eq!(r, Err(StakingError::WrongTokenContract));

    // Paused pool accepts no stake.
    contract.pause(&ctx("owner", 12, 1, 0));
    let r = contract.ft_on_transfer("alice".to_string(), 5, "s".to_string(), &ctx("ft_contract", 13, 1, 0));
    assert_eq!(r, Err(StakingError::ContractPaused));
    assert_eq!(contract.total_stake, 0);
}

#[test]
fn test_one_yocto_required() {
    let mut contract = new_contract(10);
    contract
        .storage_deposit(Some("alice".to_string()), &ctx("alice", 10, 1, 1))
        .unwrap();
    contract
        .ft_on_transfer("alice".to_string(), 1_000, "s".to_string(), &ctx("ft_contract", 10, 1, 0))
        .unwrap();

    let r = contract.unstake(10, &ctx("alice", 20, 1, 0));
    assert_eq!(r, Err(StakingError::OneYoctoRequired));
    let r = contract.unstake(10, &ctx("alice", 20, 1, 2));
    assert_eq!(r, Err(StakingError::OneYoctoRequired));
    let r = contract.harvest(&ctx("alice", 20, 1, 0));
    assert!(matches!(r, Err(StakingError::OneYoctoRequired)));
    let r = contract.withdraw(&ctx("alice", 20, 1, 0));
    assert!(matches!(r, Err(StakingError::OneYoctoRequired)));
    assert_eq!(account_of(&contract, "alice").stake_balance, 1_000);
}
