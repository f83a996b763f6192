use staking_contract::StakingContract;
use staking_contract::config::Config;
use staking_contract::types::Ctx;

fn ctx(predecessor: &str, block: u64, epoch: u64, deposit: u128) -> Ctx {
    Ctx {
        predecessor_id: predecessor.to_string(),
        block_height: block,
        epoch_height: epoch,
        block_timestamp: block * 1_000,
        attached_deposit: deposit,
    }
}

#[test]
fn test_init_contract() {
    let config: Config = Config {
        reward_num: 500,
        reward_denom: 100000,
        num_epoch_unlock: 1,
    };

    let contract = StakingContract::new(
        "bob".to_string(),
        "ft_contract".to_string(),
        config,
        &ctx("alice", 0, 0, 0),
    );

    assert_eq!(contract.owner_id, "bob".to_string());
    assert_eq!(contract.ft_contract_id, "ft_contract".to_string());
    assert_eq!(config.reward_num, contract.config.reward_num);
    assert_eq!(contract.paused, false);
}

#[test]
fn test_default_config() {
    let config = Config::default();
    assert_eq!(config.reward_num, 715);
    assert_eq!(config.reward_denom, 1_000_000_000);
    assert_eq!(config.num_epoch_unlock, 1);
}

#[test]
fn test_new_default_config() {
    let contract = StakingContract::new_default_config(
        "owner".to_string(),
        "ft_contract".to_string(),
        &ctx("owner", 42, 3, 0),
    );
    assert_eq!(contract.config, Config::default());
    assert_eq!(contract.total_stake, 0);
    assert_eq!(contract.num_staker, 0);
    assert_eq!(contract.pre_reward, 0);
    assert_eq!(contract.last_block_balance_change, 42);
    assert_eq!(contract.get_version(), 2);
    assert!(!contract.is_paused());
    assert!(!contract.exist_account("alice".to_string()));
}
