//! The bet record store: one record per stake placed.

use vstd::prelude::*;

use crate::errors::BettingError;
use crate::types::AccountId;
use crate::types::BetType;

verus! {

/// One stake, owned by the bettor who placed it and a child of exactly one
/// pool. Created with `claimed == false`, mutated exactly once by a claim,
/// never deleted.
#[derive(Clone, Copy, Debug, PartialEq, Eq, Structural)]
pub struct Bet {
    /// The identity of the staking party.
    pub bettor: AccountId,
    /// The amount in the token actually transferred.
    pub amount: u64,
    /// `amount` converted to the common unit of account at the oracle price
    /// observed when the bet was placed.
    pub usd_amount: u64,
    /// The outcome the stake is on.
    pub bet_type: BetType,
    /// One-way flag: set by the first claim, never cleared.
    pub claimed: bool,
    /// Index of the staked token in the pool's accepted list.
    pub token_index: u8,
}

/// The sum of the normalized amounts of a sequence of bets, in the common
/// unit of account.
pub open spec fn sum_normalized(bets: Seq<Bet>) -> int
    decreases bets.len(),
{
    if bets.len() == 0 {
        0
    } else {
        sum_normalized(bets.drop_last()) + bets.last().usd_amount
    }
}

pub proof fn lemma_sum_normalized_push(bets: Seq<Bet>, b: Bet)
    ensures
        sum_normalized(bets.push(b)) == sum_normalized(bets) + b.usd_amount,
{
    assert(bets.push(b).drop_last() =~= bets);
    assert(bets.push(b).last() == b);
}

/// The idempotency guard of the bet record store: marks a bet claimed the
/// first time and refuses every later attempt. Whether anything is paid is
/// the settlement engine's decision.
pub fn mark_claimed(bet: &mut Bet) -> (r: Result<(), BettingError>)
    ensures
        !old(bet).claimed ==> r == Ok::<(), BettingError>(()) && *final(bet) == (Bet { claimed: true, ..*old(bet) }),
        old(bet).claimed ==> r == Err::<(), BettingError>(BettingError::AlreadyClaimed) && *final(bet) == *old(bet),
{
    if bet.claimed {
        Err(BettingError::AlreadyClaimed)
    } else {
        bet.claimed = true;
        Ok(())
    }
}

} // verus!
