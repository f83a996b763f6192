use staking_contract::StakingContract;
use staking_contract::StorageOutcome;
use staking_contract::account::Account;
use staking_contract::account::Membership;
use staking_contract::account_v1::AccountV1;
use staking_contract::config::Config;
use staking_contract::staking_contract_v1::StakingContractV1;
use staking_contract::types::Ctx;
use staking_contract::types::StakingError;
use staking_contract::upgradable_account::UpgradableAccount;
use staking_contract::utils::at_least_one_yocto;
use staking_contract::utils::refund_amount;

fn ctx(predecessor: &str, block: u64, epoch: u64, deposit: u128) -> Ctx {
    Ctx {
        predecessor_id: predecessor.to_string(),
        block_height: block,
        epoch_height: epoch,
        block_timestamp: block * 1_000,
        attached_deposit: deposit,
    }
}

#[test]
fn test_upgrade_legacy_account() {
    let legacy = AccountV1 {
        stake_balance: 12_345,
        pre_reward: 678,
        last_block_balance_change: 90,
        unstake_balance: 11,
        unstake_start_time: 222_333,
        unstake_available_epoch: 7,
    };
    let upgraded = Account::from(UpgradableAccount::Version1(legacy));
    assert_eq!(upgraded.stake_balance, 12_345);
    assert_eq!(upgraded.pre_reward, 678);
    assert_eq!(upgraded.last_block_balance_change, 90);
    assert_eq!(upgraded.unstake_balance, 11);
    assert_eq!(upgraded.unstake_start_time, 222_333);
    assert_eq!(upgraded.unstake_available_epoch, 7);
    assert_eq!(upgraded.membership, Membership::Basic);
}

#[test]
fn test_current_account_round_trip() {
    let account = Account {
        stake_balance: 1,
        pre_reward: 2,
        last_block_balance_change: 3,
        unstake_balance: 4,
        unstake_start_time: 5,
        unstake_available_epoch: 6,
        membership: Membership::Companion,
    };
    let stored = UpgradableAccount::from(account);
    assert_eq!(Account::from(stored), account);
}

#[test]
fn test_migrate_carries_fields() {
    let old_contract = StakingContractV1 {
        owner_id: "owner".to_string(),
        ft_contract_id: "ft_contract".to_string(),
        config: Config {
            reward_num: 500,
            reward_denom: 100000,
            num_epoch_unlock: 2,
        },
        total_stake: 777,
        total_paid_reward: 88,
        num_staker: 1,
        pre_reward: 9,
        last_block_balance_change: 1_234,
        accounts: Vec::new(),
        paused: false,
        paused_block: 0,
    };
    let migrated = StakingContract::migrate(old_contract);
    assert_eq!(migrated.owner_id, "owner".to_string());
    assert_eq!(migrated.ft_contract_id, "ft_contract".to_string());
    assert_eq!(migrated.config.reward_denom, 100000);
    assert_eq!(migrated.total_stake, 777);
    assert_eq!(migrated.total_paid_reward, 88);
    assert_eq!(migrated.num_staker, 1);
    assert_eq!(migrated.pre_reward, 9);
    assert_eq!(migrated.last_block_balance_change, 1_234);
    assert_eq!(migrated.paused, false);
    assert_eq!(migrated.get_version(), 2);
}

#[test]
fn test_storage_deposit_outcomes() {
    let mut contract = StakingContract::new_default_config(
        "owner".to_string(),
        "ft_contract".to_string(),
        &ctx("owner", 50, 1, 0),
    );

    // Registration needs an attached payment.
    let r = contract.storage_deposit(Some("alice".to_string()), &ctx("alice", 50, 1, 0));
    assert_eq!(r, Err(StakingError::DepositRequired));
    assert!(!contract.exist_account("alice".to_string()));

    // First registration creates a zero-balance record checkpointed now.
    let r = contract.storage_deposit(Some("alice".to_string()), &ctx("alice", 50, 1, 1));
    assert_eq!(r, Ok(StorageOutcome::Created));
    assert!(contract.exist_account("alice".to_string()));
    let info = contract.get_account_info(&"alice".to_string(), &ctx("alice", 50, 1, 0));
    assert_eq!(info.stake_balance, 0);
    assert_eq!(info.unstake_balance, 0);
    assert_eq!(info.reward, 0);
    assert_eq!(info.membership, Membership::Basic);

    // Registering again is a no-op.
    let r = contract.storage_deposit(Some("alice".to_string()), &ctx("alice", 60, 1, 1));
    assert_eq!(r, Ok(StorageOutcome::AlreadyRegistered));

    // Without a named account, the caller is registered.
    let r = contract.storage_deposit(None, &ctx("bob", 60, 1, 1));
    assert_eq!(r, Ok(StorageOutcome::Created));
    assert!(contract.exist_account("bob".to_string()));
}

#[test]
fn test_refund_amount() {
    assert_eq!(refund_amount(100, 10, 5), Ok(50));
    assert_eq!(refund_amount(50, 10, 5), Ok(0));
    assert_eq!(refund_amount(49, 10, 5), Err(StakingError::InsufficientStorageDeposit));
    assert_eq!(refund_amount(7, 0, 0), Ok(7));
}

#[test]
fn test_at_least_one_yocto() {
    assert!(!at_least_one_yocto(0));
    assert!(at_least_one_yocto(1));
    assert!(at_least_one_yocto(2));
}

#[test]
fn test_pool_info_snapshot() {
    let mut contract = StakingContract::new_default_config(
        "owner".to_string(),
        "ft_contract".to_string(),
        &ctx("owner", 10, 1, 0),
    );
    contract
        .storage_deposit(Some("alice".to_string()), &ctx("alice", 10, 1, 1))
        .unwrap();
    contract
        .ft_on_transfer("alice".to_string(), 2_000_000, "s".to_string(), &ctx("ft_contract", 10, 1, 0))
        .unwrap();

    let pool = contract.get_pool_info(&ctx("anyone", 1_010, 1, 0));
    assert_eq!(pool.total_stake_balance, 2_000_000);
    assert_eq!(pool.total_staker, 1);
    assert_eq!(pool.is_paused, false);
    // 2,000,000 * 1,000 * 715 / 10^9
    assert_eq!(pool.total_reward, 1_430);
}
