//! A peer-correction marketplace: learners submit exercises with a fee,
//! correctors answer them, learners rate the corrections, and ratings drive
//! completion, rewards and reputation.
pub mod correction_market;
pub mod host;
pub mod lingo_token;
pub mod reputation_rewards;
pub mod user_profile;
