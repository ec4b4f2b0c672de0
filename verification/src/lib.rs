//! State engine of a decentralized stability protocol: a registry of staked
//! reporting agents, an oracle that aggregates their submissions by median,
//! stake-weighted governance, a circuit breaker, a reserve vault with a
//! solvency floor and a token supply with per-epoch mint and burn caps.
pub mod address;
pub mod config;
pub mod errors;
pub mod events;
pub mod fuzz;
pub mod governance;
pub mod math;
pub mod oracle;
pub mod percolator;
pub mod registry;
pub mod reserve;
pub mod safety;
pub mod security;
pub mod signature;
pub mod supply;
pub mod swaps;
