//! Orivex: the state machines of the Orivex learning-and-rewards contracts
//! (course registry, soulbound badges, reward pool, stake vault, governance and
//! quests), written as verified Rust with their contracts stated over
//! mathematical views.
//!
//! Each contract is a value that holds its storage as plain data. Its entry
//! points take the authenticated caller, the ledger time and the results of
//! the queries it needs from other contracts; they return the cross-contract
//! calls and token transfers that the host must perform, and append the events
//! that the contract publishes to its event log.

pub mod common;
pub mod errors;
pub mod host;
pub mod auth;
pub mod two_step;
pub mod badge_nft;
pub mod course_registry;
pub mod governance;
pub mod reward_pool;
pub mod stake_vault;
pub mod quest_engine;
pub mod hello;
pub mod storage;
