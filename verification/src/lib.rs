//! A parimutuel sports-betting escrow and settlement core.
//!
//! One betting pool is opened per sporting event with fixed integer-percent
//! odds; bettors stake before the event starts, stakes are normalized to a
//! common unit of account through an oracle price, the pool is settled once,
//! and winners claim exactly once.
//!
//! The core is a library of pure state transitions. The surrounding runtime
//! supplies the authoritative clock, the oracle readings and the custody
//! transfers, and commits or discards the states this library produces.

pub mod bet;
pub mod engine;
pub mod errors;
pub mod laws;
pub mod math;
pub mod pool;
pub mod types;
