//! The pool ledger: the canonical state of one betting event and its
//! lifecycle, from creation through stake accumulation to one-shot
//! settlement.

use vstd::prelude::*;

use crate::errors::BettingError;
use crate::types::AcceptedToken;
use crate::types::AccountId;
use crate::types::BetType;
use crate::types::SettlementInput;
use crate::types::SettlementStrategy;

verus! {

/// One betting event's pool. Created once; mutated only by stake
/// accumulation (`total_pool`) and by the one-shot settlement
/// (`is_settled`, `winner`); every other field is fixed at creation.
#[derive(Clone, Debug, PartialEq)]
pub struct BettingPool {
    /// The identity permitted to settle the pool.
    pub authority: AccountId,
    /// Opaque descriptive strings, immutable after creation.
    pub event_id: String,
    pub home_team: String,
    pub away_team: String,
    /// The instant at and after which new stakes are rejected.
    pub start_time: i64,
    /// Fixed-point odds as integer percentages (150 means 1.5x the stake).
    pub home_odds: u64,
    pub away_odds: u64,
    /// Absent when the modeled sport has no draws; an absent entry pays
    /// nothing on a draw rather than failing.
    pub draw_odds: Option<u64>,
    /// Running sum of all stakes in the common unit of account.
    pub total_pool: u64,
    /// One-way flag: set by settlement, never cleared.
    pub is_settled: bool,
    /// Absent until settlement, then fixed forever.
    pub winner: Option<BetType>,
    /// The ordered list of stakeable tokens; bets reference entries by index.
    pub accepted_tokens: Vec<AcceptedToken>,
    /// The price-feed source used for normalization and, under the
    /// oracle-sign strategy, for outcome determination.
    pub oracle_price_feed: AccountId,
    /// How the winner is determined at settlement, fixed at creation.
    pub settlement_strategy: SettlementStrategy,
}

/// Well-formedness of a pool: the winner is absent until the pool is
/// settled, and recorded exactly when it is.
pub open spec fn pool_wf(pool: BettingPool) -> bool {
    pool.is_settled <==> pool.winner is Some
}

/// The odds the pool pays on an outcome, as an integer percentage of the
/// stake. Absent draw odds resolve to zero.
pub open spec fn odds_for(pool: BettingPool, outcome: BetType) -> u64 {
    match outcome {
        BetType::Home => pool.home_odds,
        BetType::Away => pool.away_odds,
        BetType::Draw => match pool.draw_odds {
            Some(d) => d,
            None => 0,
        },
    }
}

/// The winner the oracle-sign strategy derives from a current price: a
/// positive reading means home, a negative one away, zero a draw.
pub open spec fn outcome_from_price(price: i64) -> BetType {
    if price > 0 {
        BetType::Home
    } else if price < 0 {
        BetType::Away
    } else {
        BetType::Draw
    }
}

/// The winner the given settlement evidence yields under the given strategy,
/// or `None` when the evidence is unusable: a missing oracle reading, or
/// evidence of the wrong kind for the strategy.
pub open spec fn spec_resolve_winner(strategy: SettlementStrategy, input: SettlementInput) -> Option<
    BetType,
> {
    match (strategy, input) {
        (SettlementStrategy::Authority, SettlementInput::Declared(w)) => Some(w),
        (
            SettlementStrategy::OraclePriceSign,
            SettlementInput::OracleReading(Some(p)),
        ) => Some(outcome_from_price(p.price)),
        _ => None,
    }
}

/// The settlement transition: the settled pool on success, the exact error
/// otherwise. Settlement fails on an already settled pool, for any caller
/// but the pool authority, and on unusable outcome evidence.
pub open spec fn spec_settle(
    pool: BettingPool,
    caller: AccountId,
    input: SettlementInput,
) -> Result<BettingPool, BettingError> {
    if pool.is_settled {
        Err(BettingError::EventAlreadySettled)
    } else if caller != pool.authority {
        Err(BettingError::Unauthorized)
    } else {
        match spec_resolve_winner(pool.settlement_strategy, input) {
            Some(w) => Ok(BettingPool { is_settled: true, winner: Some(w), ..pool }),
            None => Err(BettingError::InvalidOracleData),
        }
    }
}

/// Opens the pool for one event: odds and metadata fixed, no stakes yet,
/// not settled, no winner.
pub fn initialize_betting_pool(
    authority: AccountId,
    event_id: String,
    home_team: String,
    away_team: String,
    start_time: i64,
    home_odds: u64,
    away_odds: u64,
    draw_odds: Option<u64>,
    accepted_tokens: Vec<AcceptedToken>,
    oracle_price_feed: AccountId,
    settlement_strategy: SettlementStrategy,
) -> (pool: BettingPool)
    requires
        home_odds >= 1,
        away_odds >= 1,
        draw_odds matches Some(d) ==> d >= 1,
    ensures
        pool == (BettingPool {
            authority,
            event_id,
            home_team,
            away_team,
            start_time,
            home_odds,
            away_odds,
            draw_odds,
            total_pool: 0u64,
            is_settled: false,
            winner: None::<BetType>,
            accepted_tokens,
            oracle_price_feed,
            settlement_strategy,
        }),
        pool_wf(pool),
{
    BettingPool {
        authority,
        event_id,
        home_team,
        away_team,
        start_time,
        home_odds,
        away_odds,
        draw_odds,
        total_pool: 0,
        is_settled: false,
        winner: None,
        accepted_tokens,
        oracle_price_feed,
        settlement_strategy,
    }
}

/// Adds a normalized stake to the pool's running total. The addition never
/// silently wraps: on overflow the pool is left unchanged and the operation
/// fails.
pub fn record_stake(pool: &mut BettingPool, amount: u64) -> (r: Result<(), BettingError>)
    ensures
        old(pool).total_pool + amount <= u64::MAX ==> r == Ok::<(), BettingError>(())
            && *final(pool) == (BettingPool { total_pool: (old(pool).total_pool + amount) as u64, ..*old(pool) }),
        old(pool).total_pool + amount > u64::MAX
            ==> r == Err::<(), BettingError>(BettingError::CalculationError) && *final(pool) == *old(pool),
{
    match pool.total_pool.checked_add(amount) {
        Some(new_total) => {
            pool.total_pool = new_total;
            Ok(())
        },
        None => Err(BettingError::CalculationError),
    }
}

/// Settles the pool exactly once: records the winner the evidence yields and
/// sets the one-way settled flag. Fails atomically, with the pool unchanged,
/// when the pool is already settled, the caller is not the authority, or the
/// evidence is unusable for the pool's strategy.
pub fn settle_event(pool: &mut BettingPool, caller: AccountId, input: SettlementInput) -> (r:
    Result<(), BettingError>)
    ensures
        match spec_settle(*old(pool), caller, input) {
            Ok(settled) => r == Ok::<(), BettingError>(()) && *final(pool) == settled,
            Err(e) => r == Err::<(), BettingError>(e) && *final(pool) == *old(pool),
        },
        r is Ok ==> final(pool).is_settled && final(pool).winner is Some,
        pool_wf(*old(pool)) ==> pool_wf(*final(pool)),
{
    if pool.is_settled {
        return Err(BettingError::EventAlreadySettled);
    }
    if !(caller == pool.authority) {
        return Err(BettingError::Unauthorized);
    }
    let winner: BetType = match input {
        SettlementInput::Declared(w) => {
            match pool.settlement_strategy {
                SettlementStrategy::Authority => w,
                SettlementStrategy::OraclePriceSign => {
                    return Err(BettingError::InvalidOracleData);
                },
            }
        },
        SettlementInput::OracleReading(reading) => {
            match pool.settlement_strategy {
                SettlementStrategy::Authority => {
                    return Err(BettingError::InvalidOracleData);
                },
                SettlementStrategy::OraclePriceSign => {
                    match reading {
                        Some(p) => {
                            if p.price > 0 {
                                BetType::Home
                            } else if p.price < 0 {
                                BetType::Away
                            } else {
                                BetType::Draw
                            }
                        },
                        None => {
                            return Err(BettingError::InvalidOracleData);
                        },
                    }
                },
            }
        },
    };
    pool.is_settled = true;
    pool.winner = Some(winner);
    Ok(())
}

} // verus!
