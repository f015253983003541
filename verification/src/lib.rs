//! A token-distribution and marketplace engine.
//!
//! Drops of fungible tokens or non-fungible assets are claimed by accounts,
//! optionally behind a scavenger hunt; claimed tokens are spent in
//! per-vendor catalogs. The whole state lives in one owned aggregate,
//! [`contract::Contract`], and every operation on it is a transition of the
//! mathematical model in [`state`].

pub mod access;
pub mod claims;
pub mod contract;
pub mod drops;
pub mod errors;
pub mod laws;
pub mod ledger;
pub mod metadata;
pub mod models;
pub mod state;
pub mod storage;
pub mod table;
pub mod tickets;
pub mod vendors;
