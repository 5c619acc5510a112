//! Reward pipeline for a daily quiz: a per-user streak record advanced by an
//! idempotent day-keyed transition, atomic ledger operation batches that settle
//! token rewards, and the dispatch and handler logic that drives both from a
//! message stream.

pub mod assets;
pub mod bus;
pub mod collectible;
pub mod commands;
pub mod config;
pub mod digits;
pub mod dispatcher;
pub mod handler;
pub mod ledger;
pub mod models;
pub mod streak;
pub mod wallet;
