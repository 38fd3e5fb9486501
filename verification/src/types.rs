//! Plain-value models of the identities and oracle readings the core reads.
//!
//! The core only ever compares identities for equality and reads an oracle
//! price as an integer mantissa with a decimal exponent, so both are carried
//! as plain values; verifying signatures and producing readings is the
//! surrounding runtime's business.

use vstd::prelude::*;

verus! {

/// A verified on-ledger identity: an account, a token mint or an authority.
/// The core only compares identities for equality.
#[derive(Clone, Copy, Debug, PartialEq, Eq, Structural)]
pub struct AccountId {
    pub id: u64,
}

/// The outcome a bettor stakes on.
#[derive(Clone, Copy, Debug, PartialEq, Eq, Structural)]
pub enum BetType {
    Home,
    Away,
    Draw,
}

/// One entry of a pool's accepted-asset list: the token's mint and its
/// decimal precision.
#[derive(Clone, Copy, Debug, PartialEq, Eq, Structural)]
pub struct AcceptedToken {
    pub mint: AccountId,
    pub decimals: u8,
}

/// A current oracle reading, usable as `price * 10^expo` units of account.
#[derive(Clone, Copy, Debug, PartialEq, Eq, Structural)]
pub struct OraclePrice {
    pub price: i64,
    pub expo: i32,
}

/// How a pool's winner is determined at settlement, chosen at pool creation:
/// declared outright by the pool authority, or derived from the sign of the
/// oracle's current price.
#[derive(Clone, Copy, Debug, PartialEq, Eq, Structural)]
pub enum SettlementStrategy {
    Authority,
    OraclePriceSign,
}

/// The outcome evidence handed to settlement: a winner declared by the
/// authority, or the oracle's current reading (`None` when the oracle had no
/// usable price).
#[derive(Clone, Copy, Debug)]
pub enum SettlementInput {
    Declared(BetType),
    OracleReading(Option<OraclePrice>),
}

} // verus!
