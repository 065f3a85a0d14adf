use lingo_market::host::Identity;
use lingo_market::reputation_rewards::{
    calculate_reward_internal, Error, Payout, ReputationRewardsContract, RewardConfig,
};

const ADMIN: Identity = Identity { id: 1 };
const CORRECTOR: Identity = Identity { id: 2 };
const LEARNER: Identity = Identity { id: 3 };

#[test]
fn test_initialize() {
    let mut c = ReputationRewardsContract::new();
    c.initialize(ADMIN).unwrap();
    assert_eq!(c.get_admin(), Some(ADMIN));
    let config = c.get_config();
    assert_eq!(config.base_reward, 10);
    assert_eq!(config.reputation_multiplier, 10);
    assert_eq!(config.min_rating_for_reward, 2);
    assert_eq!(config.reputation_bonus_per_star, 5);
}

#[test]
fn test_calculate_reward() {
    let mut c = ReputationRewardsContract::new();
    c.initialize(ADMIN).unwrap();
    assert_eq!(c.calculate_reward(CORRECTOR, 1, 100), 0);
    assert_eq!(c.calculate_reward(CORRECTOR, 2, 100), 5);
    assert_eq!(c.calculate_reward(CORRECTOR, 3, 100), 10);
    assert_eq!(c.calculate_reward(CORRECTOR, 4, 100), 15);
    assert_eq!(c.calculate_reward(CORRECTOR, 5, 100), 20);
}

#[test]
fn test_update_config() {
    let mut c = ReputationRewardsContract::new();
    c.initialize(ADMIN).unwrap();
    let new_config = RewardConfig {
        base_reward: 20,
        reputation_multiplier: 15,
        min_rating_for_reward: 3,
        reputation_bonus_per_star: 10,
    };
    c.update_config(ADMIN, new_config).unwrap();
    let stored_config = c.get_config();
    assert_eq!(stored_config.base_reward, 20);
    assert_eq!(stored_config.reputation_multiplier, 15);
    assert_eq!(stored_config.min_rating_for_reward, 3);
    assert_eq!(stored_config.reputation_bonus_per_star, 10);
}

#[test]
fn reward_without_stored_config_uses_default() {
    let c = ReputationRewardsContract::new();
    assert_eq!(c.calculate_reward(CORRECTOR, 5, 100), 20);
    assert_eq!(c.get_config(), RewardConfig::default());
}

#[test]
fn reward_is_capped_at_fee() {
    let config = RewardConfig::default();
    assert_eq!(calculate_reward_internal(5, 7, &config, 100), 7);
    assert_eq!(calculate_reward_internal(0, 7, &config, 100), 0);
    assert_eq!(calculate_reward_internal(6, 7, &config, 100), 0);
}

#[test]
fn reward_scales_with_reputation() {
    let config = RewardConfig::default();
    assert_eq!(calculate_reward_internal(3, 1000, &config, 0), 10);
    assert_eq!(calculate_reward_internal(3, 1000, &config, 199), 10);
    assert_eq!(calculate_reward_internal(3, 1000, &config, 50_000), 15);
    assert_eq!(calculate_reward_internal(3, 1000, &config, 100_099), 20);
    assert_eq!(calculate_reward_internal(5, 1000, &config, 100_000), 40);
}

#[test]
fn huge_reward_is_capped_without_overflow() {
    let config = RewardConfig {
        base_reward: u64::MAX,
        reputation_multiplier: u64::MAX,
        min_rating_for_reward: 1,
        reputation_bonus_per_star: u64::MAX,
    };
    assert_eq!(calculate_reward_internal(5, 123, &config, u64::MAX), 123);
}

#[test]
fn process_reward_outcomes() {
    let mut c = ReputationRewardsContract::new();
    assert_eq!(
        c.process_reward(CORRECTOR, LEARNER, 3, 100, ADMIN),
        Err(Error::InvalidConfig)
    );
    c.initialize(ADMIN).unwrap();
    assert_eq!(
        c.process_reward(CORRECTOR, LEARNER, 0, 100, ADMIN),
        Err(Error::InvalidRating)
    );
    assert_eq!(c.process_reward(CORRECTOR, LEARNER, 1, 100, ADMIN), Ok(None));
    assert_eq!(
        c.process_reward(CORRECTOR, LEARNER, 4, 100, ADMIN),
        Ok(Some(Payout { amount: 15, reputation_change: 20 }))
    );
}

#[test]
fn update_config_checks_admin_and_values() {
    let mut c = ReputationRewardsContract::new();
    assert_eq!(
        c.update_config(ADMIN, RewardConfig::default()),
        Err(Error::Unauthorized)
    );
    c.initialize(ADMIN).unwrap();
    assert_eq!(
        c.update_config(CORRECTOR, RewardConfig::default()),
        Err(Error::Unauthorized)
    );
    let bad = RewardConfig { min_rating_for_reward: 6, ..RewardConfig::default() };
    assert_eq!(c.update_config(ADMIN, bad), Err(Error::InvalidConfig));
    let bad = RewardConfig { base_reward: 0, ..RewardConfig::default() };
    assert_eq!(c.update_config(ADMIN, bad), Err(Error::InvalidConfig));
}

#[test]
fn rewards_admin_handover() {
    let mut c = ReputationRewardsContract::new();
    c.initialize(ADMIN).unwrap();
    assert_eq!(c.transfer_admin(CORRECTOR, LEARNER), Err(Error::Unauthorized));
    c.transfer_admin(ADMIN, LEARNER).unwrap();
    assert_eq!(c.get_admin(), Some(LEARNER));
    assert_eq!(Error::ContractNotFound.code(), 4);
}
