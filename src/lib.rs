//! A read-only binding for a concentrated-liquidity pool contract, and the
//! configuration that points a process at its endpoints and tokens.
pub mod abi;
pub mod config;
pub mod pool;
