//! Resolution and validation of the S9 miner's configuration: per-chain clock
//! and voltage settings, temperature and fan control, and the checks a decoded
//! configuration record must pass before it is used.

pub mod chain_index;
pub mod config;
pub mod monitor;
pub mod option_default;
pub mod power;
