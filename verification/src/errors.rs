//! The error taxonomy of the betting core.
//!
//! Every operation fails atomically with one of these kinds; timing errors
//! may clear later, authorization and duplicate-claim errors never do, and
//! arithmetic or oracle errors signal a data-integrity problem.

use vstd::prelude::*;

verus! {

#[derive(Clone, Copy, Debug, PartialEq, Eq, Structural)]
pub enum BettingError {
    /// A stake was attempted at or after the pool's start time.
    EventAlreadyStarted,
    /// A mutation was attempted after the pool was settled.
    EventAlreadySettled,
    /// A claim was attempted before the pool was settled.
    EventNotSettled,
    /// A duplicate claim was attempted on the same bet.
    AlreadyClaimed,
    /// Settlement was attempted by an identity other than the pool authority.
    Unauthorized,
    /// A checked arithmetic step would overflow or divide by zero, or a
    /// computed value would leave the integer range.
    CalculationError,
    /// The staked token is not in the pool's accepted list, or the token
    /// index is out of range.
    InvalidToken,
    /// No usable outcome or current price was supplied for the pool's
    /// settlement strategy or oracle reference.
    InvalidOracleData,
}

} // verus!
