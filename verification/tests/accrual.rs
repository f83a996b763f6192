use staking_contract::StakingContract;
use staking_contract::core_impl::TransferOutcome;
use staking_contract::internal::accrue;
use staking_contract::types::Ctx;

fn ctx(predecessor: &str, block: u64, epoch: u64, deposit: u128) -> Ctx {
    Ctx {
        predecessor_id: predecessor.to_string(),
        block_height: block,
        epoch_height: epoch,
        block_timestamp: block * 1_000,
        attached_deposit: deposit,
    }
}

fn contract_with_alice(block: u64) -> StakingContract {
    let mut contract = StakingContract::new_default_config(
        "owner".to_string(),
        "ft_contract".to_string(),
        &ctx("owner", block, 1, 0),
    );
    contract
        .storage_deposit(Some("alice".to_string()), &ctx("alice", block, 1, 1))
        .unwrap();
    contract
}

#[test]
fn test_accrue_linearity() {
    // stake * (t1 - t0) * num / denom, truncating toward zero
    assert_eq!(accrue(1_000_000, 100, 1_100, 715, 1_000_000_000), 715);
    assert_eq!(accrue(10, 0, 3, 7, 4), 52); // 210 / 4 truncated
    assert_eq!(accrue(1, 0, 1, 1, 2), 0); // truncated to zero
    assert_eq!(accrue(0, 5, 500, 715, 1_000_000_000), 0); // no stake, no reward
}

#[test]
fn test_accrue_zero_span() {
    assert_eq!(accrue(123_456_789, 777, 777, 715, 1_000_000_000), 0);
    assert_eq!(accrue(1, 0, 0, 1, 1), 0);
}

#[test]
fn test_scenario_harvest_after_thousand_blocks() {
    let mut contract = contract_with_alice(100);

    // Deposit 1,000,000 units at block 100 through the token contract.
    let r = contract.ft_on_transfer(
        "alice".to_string(),
        1_000_000,
        "stake".to_string(),
        &ctx("ft_contract", 100, 1, 0),
    );
    assert_eq!(r, Ok(0));
    assert_eq!(contract.total_stake, 1_000_000);
    assert_eq!(contract.num_staker, 1);

    // After 1,000 blocks the accrued reward is 1,000,000 * 1,000 * 715 / 10^9.
    let info = contract.get_account_info(&"alice".to_string(), &ctx("alice", 1_100, 1, 0));
    assert_eq!(info.reward, 715);

    // Harvest asks for exactly that amount.
    let request = contract
        .harvest(&ctx("alice", 1_100, 1, 1))
        .unwrap_or_else(|_| panic!("harvest refused"));
    assert_eq!(request.amount, 715);
    assert_eq!(request.receiver_id, "alice".to_string());

    // A successful transfer pays 715, clears the pending reward and moves
    // the checkpoint to the harvest block.
    let paid = contract.ft_harvest_callback(
        "alice".to_string(),
        request.amount,
        TransferOutcome::Successful,
        &ctx("owner", 1_100, 1, 0),
    );
    assert_eq!(paid, Ok(715));
    assert_eq!(contract.total_paid_reward, 715);
    let info = contract.get_account_info(&"alice".to_string(), &ctx("alice", 1_100, 1, 0));
    assert_eq!(info.reward, 0);
    assert_eq!(info.stake_balance, 1_000_000);
}

#[test]
fn test_pause_freezes_accrual() {
    let mut contract = contract_with_alice(100);
    contract
        .ft_on_transfer(
            "alice".to_string(),
            1_000_000,
            "stake".to_string(),
            &ctx("ft_contract", 100, 1, 0),
        )
        .unwrap();

    contract.pause(&ctx("owner", 600, 1, 0));
    assert!(contract.is_paused());

    // Strictly after pausing, the reward no longer grows with the block
    // height: it is pinned to the frozen block.
    let frozen = accrue(1_000_000, 100, 600, 715, 1_000_000_000);
    let at_700 = contract.get_account_info(&"alice".to_string(), &ctx("alice", 700, 1, 0));
    let at_9999 = contract.get_account_info(&"alice".to_string(), &ctx("alice", 9_999, 1, 0));
    assert_eq!(at_700.reward, frozen);
    assert_eq!(at_9999.reward, frozen);

    let pool_700 = contract.get_pool_info(&ctx("alice", 700, 1, 0));
    let pool_9999 = contract.get_pool_info(&ctx("alice", 9_999, 1, 0));
    assert_eq!(pool_700.total_reward, frozen);
    assert_eq!(pool_9999.total_reward, pool_700.total_reward);
}

#[test]
fn test_harvest_zero_reward_rejected() {
    let mut contract = contract_with_alice(100);
    contract
        .ft_on_transfer(
            "alice".to_string(),
            1_000,
            "stake".to_string(),
            &ctx("ft_contract", 100, 1, 0),
        )
        .unwrap();

    // Harvesting in the deposit block: nothing has accrued yet.
    let r = contract.harvest(&ctx("alice", 100, 1, 1));
    assert!(matches!(r, Err(staking_contract::types::StakingError::ZeroReward)));
}

#[test]
fn test_harvest_transfer_failure_changes_nothing() {
    let mut contract = contract_with_alice(100);
    contract
        .ft_on_transfer(
            "alice".to_string(),
            1_000_000,
            "stake".to_string(),
            &ctx("ft_contract", 100, 1, 0),
        )
        .unwrap();

    let request = contract
        .harvest(&ctx("alice", 1_100, 1, 1))
        .unwrap_or_else(|_| panic!("harvest refused"));
    let r = contract.ft_harvest_callback(
        "alice".to_string(),
        request.amount,
        TransferOutcome::Failed,
        &ctx("owner", 1_100, 1, 0),
    );
    assert_eq!(r, Err(staking_contract::types::StakingError::TransferFailed));
    assert_eq!(contract.total_paid_reward, 0);
    let info = contract.get_account_info(&"alice".to_string(), &ctx("alice", 1_100, 1, 0));
    assert_eq!(info.reward, 715);
}
