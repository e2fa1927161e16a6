//! The fee collector of an AMM: it gathers the trading fees that pools send to it,
//! swaps them into the protocol token and splits that token between the staking
//! and the governance contracts.

pub mod asset;
pub mod error;
pub mod state;
pub mod msg;
pub mod distribution;
pub mod factory;
pub mod collect;
pub mod contract;
