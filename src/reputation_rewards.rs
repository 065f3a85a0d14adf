//! Rewards for rated corrections: how many tokens a corrector earns for a
//! rating, and how much reputation the rating is worth.
use vstd::prelude::*;
use crate::host::Identity;

verus! {

/// The reputation every corrector is credited with until live scores are
/// consulted.
pub const BASELINE_REPUTATION: u64 = 100;

/// The parameters of the reward rule.
#[derive(Clone, Copy, Debug, PartialEq, Eq, Structural)]
pub struct RewardConfig {
    /// Tokens paid for a three-star correction.
    pub base_reward: u64,
    /// Hundredths of a percent added to a reward for each full 100 points of
    /// reputation.
    pub reputation_multiplier: u64,
    /// The fewest stars that earn a reward.
    pub min_rating_for_reward: u32,
    /// Reputation points gained per star.
    pub reputation_bonus_per_star: u64,
}

pub open spec fn default_config() -> RewardConfig {
    RewardConfig {
        base_reward: 10,
        reputation_multiplier: 10,
        min_rating_for_reward: 2,
        reputation_bonus_per_star: 5,
    }
}

impl Default for RewardConfig {
    fn default() -> (r: RewardConfig)
        ensures
            r == default_config(),
    {
        RewardConfig {
            base_reward: 10,
            reputation_multiplier: 10,
            min_rating_for_reward: 2,
            reputation_bonus_per_star: 5,
        }
    }
}

/// Something that happened in the reward service, as the host announces it.
pub enum ReputationRewardsEvent {
    RewardProcessed { corrector: Identity, amount: u64, rating: u32 },
    ConfigUpdated { admin: Identity },
}

#[derive(Clone, Copy, Debug, PartialEq, Eq, Structural)]
pub enum Error {
    Unauthorized,
    InvalidRating,
    InvalidConfig,
    ContractNotFound,
}

pub open spec fn error_code(e: Error) -> u32 {
    match e {
        Error::Unauthorized => 1,
        Error::InvalidRating => 2,
        Error::InvalidConfig => 3,
        Error::ContractNotFound => 4,
    }
}

impl Error {
    /// The number under which the host reports this error.
    pub fn code(&self) -> (r: u32)
        ensures
            r == error_code(*self),
    {
        match self {
            Error::Unauthorized => 1,
            Error::InvalidRating => 2,
            Error::InvalidConfig => 3,
            Error::ContractNotFound => 4,
        }
    }
}

/// The reward before the reputation bonus: nothing for one star, half the
/// base for two, the base for three, one and a half times it for four and
/// twice it for five.
pub open spec fn base_for_rating(rating: u32, base: u64) -> int {
    if rating == 2 {
        base as int / 2
    } else if rating == 3 {
        base as int
    } else if rating == 4 {
        base as int * 3 / 2
    } else if rating == 5 {
        base as int * 2
    } else {
        0
    }
}

/// The scale applied to a reward, in hundredths of a percent. The reward is
/// scaled by (100 + r * m%) / 100, where r is the number of full hundreds of
/// reputation and m% is the multiplier read as a percentage, so that in
/// hundredths of a percent the scale is 10000 + r * m.
pub open spec fn reputation_scale(reputation: u64, multiplier: u64) -> int {
    10000 + (reputation as int / 100) * multiplier as int
}

/// The reward for `rating`, scaled by reputation and capped at the fee.
pub open spec fn reward_amount(rating: u32, fee: u64, config: RewardConfig, reputation: u64) -> int {
    let scaled = base_for_rating(rating, config.base_reward) * reputation_scale(
        reputation,
        config.reputation_multiplier,
    ) / 10000;
    if scaled < fee {
        scaled
    } else {
        fee as int
    }
}

/// A configuration that the admin may install.
pub open spec fn config_is_valid(config: RewardConfig) -> bool {
    config.base_reward > 0 && 1 <= config.min_rating_for_reward <= 5
}

/// What a rating earns: tokens for the corrector and reputation points.
#[derive(Clone, Copy, Debug, PartialEq, Eq, Structural)]
pub struct Payout {
    pub amount: u64,
    pub reputation_change: u64,
}

/// The reputation a rating is worth: the stars times the bonus per star, as
/// far as a score can hold it.
pub open spec fn reputation_gain(rating: u32, config: RewardConfig) -> u64 {
    let gain = rating as int * config.reputation_bonus_per_star as int;
    if gain <= u64::MAX {
        gain as u64
    } else {
        u64::MAX
    }
}

/// What a rating settles for under `config`: nothing below the threshold,
/// else the reward at baseline reputation and the reputation gain.
pub open spec fn settlement(rating: u32, fee: u64, config: RewardConfig) -> Option<Payout> {
    if rating >= config.min_rating_for_reward {
        Some(
            Payout {
                amount: reward_amount(rating, fee, config, BASELINE_REPUTATION) as u64,
                reputation_change: reputation_gain(rating, config),
            },
        )
    } else {
        None
    }
}

/// The reward for `rating` against a submission fee of `base_fee`, for a
/// corrector with the given reputation.
pub fn calculate_reward_internal(rating: u32, base_fee: u64, config: &RewardConfig, reputation: u64) -> (r: u64)
    ensures
        r == reward_amount(rating, base_fee, *config, reputation),
{
    let base = config.base_reward as u128;
    let by_rating: u128 = match rating {
        1 => 0,
        2 => base / 2,
        3 => base,
        4 => base * 3 / 2,
        5 => base * 2,
        _ => 0,
    };
    let steps = (reputation / 100) as u128;
    let multiplier = config.reputation_multiplier as u128;
    assert(steps * multiplier <= 0xffff_ffff_ffff_ffffu128 * 0xffff_ffff_ffff_ffffu128) by (nonlinear_arith)
        requires
            steps <= 0xffff_ffff_ffff_ffffu128,
            multiplier <= 0xffff_ffff_ffff_ffffu128,
    ;
    let scale: u128 = 10000 + steps * multiplier;
    assert(by_rating == base_for_rating(rating, config.base_reward));
    assert(scale == reputation_scale(reputation, config.reputation_multiplier));
    match by_rating.checked_mul(scale) {
        Some(product) => {
            let scaled = product / 10000;
            if scaled < base_fee as u128 {
                scaled as u64
            } else {
                base_fee
            }
        },
        None => {
            let ghost product = by_rating as int * scale as int;
            assert(product / 10000 >= base_fee) by (nonlinear_arith)
                requires
                    product > u128::MAX,
                    base_fee <= u64::MAX,
            ;
            base_fee
        },
    }
}

/// The reward service's state: its admin and its configuration, once set.
pub struct RewardsView {
    pub admin: Option<Identity>,
    pub config: Option<RewardConfig>,
}

impl RewardsView {
    /// The configuration in force: the stored one, else the default.
    pub open spec fn effective_config(self) -> RewardConfig {
        match self.config {
            Some(c) => c,
            None => default_config(),
        }
    }

    pub open spec fn is_admin(self, who: Identity) -> bool {
        self.admin == Some(who)
    }
}

pub struct ReputationRewardsContract {
    admin: Option<Identity>,
    config: Option<RewardConfig>,
}

impl View for ReputationRewardsContract {
    type V = RewardsView;

    closed spec fn view(&self) -> RewardsView {
        RewardsView { admin: self.admin, config: self.config }
    }
}

impl ReputationRewardsContract {
    /// A service with neither admin nor configuration.
    pub fn new() -> (r: Self)
        ensures
            r@.admin is None,
            r@.config is None,
    {
        ReputationRewardsContract { admin: None, config: None }
    }

    /// Makes `admin` the admin and installs the default configuration.
    pub fn initialize(&mut self, admin: Identity) -> (r: Result<(), Error>)
        ensures
            r is Ok,
            final(self)@ == (RewardsView { admin: Some(admin), config: Some(default_config()) }),
    {
        self.admin = Some(admin);
        self.config = Some(RewardConfig::default());
        Ok(())
    }

    /// Settles a rating: the tokens and reputation it earns the corrector,
    /// or `None` when it is below the threshold.
    pub fn process_reward(
        &self,
        corrector: Identity,
        learner: Identity,
        rating: u32,
        fee_amount: u64,
        caller: Identity,
    ) -> (r: Result<Option<Payout>, Error>)
        ensures
            rating == 0 || rating > 5 ==> r == Err::<Option<Payout>, Error>(Error::InvalidRating),
            1 <= rating <= 5 && self@.config is None ==> r == Err::<Option<Payout>, Error>(
                Error::InvalidConfig,
            ),
            1 <= rating <= 5 && self@.config is Some ==> r == Ok::<Option<Payout>, Error>(
                settlement(rating, fee_amount, self@.config->0),
            ),
    {
        if rating == 0 || rating > 5 {
            return Err(Error::InvalidRating);
        }
        let config = match self.config {
            Some(c) => c,
            None => return Err(Error::InvalidConfig),
        };
        if rating >= config.min_rating_for_reward {
            let amount = calculate_reward_internal(rating, fee_amount, &config, BASELINE_REPUTATION);
            let reputation_change = match (rating as u64).checked_mul(config.reputation_bonus_per_star) {
                Some(gain) => gain,
                None => u64::MAX,
            };
            Ok(Some(Payout { amount, reputation_change }))
        } else {
            Ok(None)
        }
    }

    /// The reward a rating would earn against a fee of `base_fee`, under the
    /// configuration in force.
    pub fn calculate_reward(&self, corrector: Identity, rating: u32, base_fee: u64) -> (r: u64)
        ensures
            r == reward_amount(rating, base_fee, self@.effective_config(), BASELINE_REPUTATION),
    {
        let config = self.get_config();
        calculate_reward_internal(rating, base_fee, &config, BASELINE_REPUTATION)
    }

    /// Replaces the configuration; only the admin may, and only with a valid one.
    pub fn update_config(&mut self, admin: Identity, config: RewardConfig) -> (r: Result<(), Error>)
        ensures
            !old(self)@.is_admin(admin) ==> r == Err::<(), Error>(Error::Unauthorized),
            old(self)@.is_admin(admin) && !config_is_valid(config) ==> r == Err::<(), Error>(
                Error::InvalidConfig,
            ),
            old(self)@.is_admin(admin) && config_is_valid(config) ==> r is Ok,
            r is Ok ==> final(self)@ == (RewardsView { config: Some(config), ..old(self)@ }),
            r is Err ==> final(self)@ == old(self)@,
    {
        match self.admin {
            Some(a) => {
                if a != admin {
                    return Err(Error::Unauthorized);
                }
            },
            None => return Err(Error::Unauthorized),
        }
        if config.base_reward == 0 || config.min_rating_for_reward == 0
            || config.min_rating_for_reward > 5 {
            return Err(Error::InvalidConfig);
        }
        self.config = Some(config);
        Ok(())
    }

    /// The configuration in force.
    pub fn get_config(&self) -> (r: RewardConfig)
        ensures
            r == self@.effective_config(),
    {
        match self.config {
            Some(c) => c,
            None => RewardConfig::default(),
        }
    }

    pub fn get_admin(&self) -> (r: Option<Identity>)
        ensures
            r == self@.admin,
    {
        self.admin
    }

    /// Hands the admin role to `new_admin`; only the admin may.
    pub fn transfer_admin(&mut self, current_admin: Identity, new_admin: Identity) -> (r: Result<(), Error>)
        ensures
            !old(self)@.is_admin(current_admin) ==> r == Err::<(), Error>(Error::Unauthorized)
                && final(self)@ == old(self)@,
            old(self)@.is_admin(current_admin) ==> r is Ok && final(self)@ == (RewardsView {
                admin: Some(new_admin),
                ..old(self)@
            }),
    {
        match self.admin {
            Some(a) => {
                if a != current_admin {
                    return Err(Error::Unauthorized);
                }
            },
            None => return Err(Error::Unauthorized),
        }
        self.admin = Some(new_admin);
        Ok(())
    }
}

} // verus!
