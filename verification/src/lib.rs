//! Arbitrage watcher core: samples swap quotes for one token pair from two
//! price sources, detects divergences whose net profit clears a configured
//! threshold, and records each qualifying opportunity in an append-only log
//! served most-recent-first.

pub mod amount;
pub mod config;
pub mod cycle;
pub mod decimals;
pub mod evaluate;
pub mod store;
