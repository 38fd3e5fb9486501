//! The settlement and payout engine: stake normalization through the oracle
//! price, bet placement, payout computation and exactly-once claiming.
//!
//! All arithmetic is checked: no step ever silently wraps, and any value
//! that would leave the integer range fails the whole operation with
//! [`BettingError::CalculationError`] and no state change.

use vstd::prelude::*;

use crate::bet::Bet;
use crate::errors::BettingError;
use crate::math::abs_expo;
use crate::math::abs_expo_exec;
use crate::math::lemma_pow10_positive;
use crate::math::pow10;
use crate::math::pow10_checked;
use crate::pool::odds_for;
use crate::pool::BettingPool;
use crate::types::AccountId;
use crate::types::BetType;
use crate::types::OraclePrice;

verus! {

/// The normalization of a raw token amount to the common unit of account at
/// an oracle reading: `floor(amount * price / 10^|expo|)`. Fails when the
/// price is negative, or when `10^|expo|` or `amount * price` leaves the
/// oracle's signed 64-bit range.
pub open spec fn spec_normalize(amount: u64, price: i64, expo: i32) -> Result<u64, BettingError> {
    if price < 0 {
        Err(BettingError::CalculationError)
    } else if pow10(abs_expo(expo)) > i64::MAX {
        Err(BettingError::CalculationError)
    } else if amount * price > i64::MAX {
        Err(BettingError::CalculationError)
    } else {
        Ok((((amount * price) as nat / pow10(abs_expo(expo))) as u64))
    }
}

/// The payout arithmetic for a winning normalized stake: gross winnings
/// `usd_amount * odds / 100` in the unit of account, denormalized to the
/// bettor's token at the claim-time reading as
/// `gross * 10^|expo| / price`. Fails when the gross winnings leave the
/// 64-bit range, when `10^|expo|` or the denormalization product leaves the
/// signed 64-bit range, or when the price is not positive.
pub open spec fn spec_payout(usd_amount: u64, odds: u64, price: i64, expo: i32) -> Result<
    u64,
    BettingError,
> {
    if usd_amount * odds > u64::MAX {
        Err(BettingError::CalculationError)
    } else if pow10(abs_expo(expo)) > i64::MAX {
        Err(BettingError::CalculationError)
    } else if (usd_amount * odds) as nat / 100 * pow10(abs_expo(expo)) > i64::MAX {
        Err(BettingError::CalculationError)
    } else if price <= 0 {
        Err(BettingError::CalculationError)
    } else {
        Ok(((((usd_amount * odds) as nat / 100 * pow10(abs_expo(expo))) / price as nat) as u64))
    }
}

/// What a claim on the bet pays, given the pool and the claim-time oracle
/// reading: zero for a bet that did not pick the recorded winner (or when no
/// winner is recorded), and the denormalized winnings at the pool's odds for
/// a bet that did. Only a winning bet needs the oracle.
pub open spec fn spec_compute_payout(
    bet: Bet,
    pool: BettingPool,
    oracle: Option<OraclePrice>,
) -> Result<u64, BettingError> {
    if pool.winner != Some(bet.bet_type) {
        Ok(0u64)
    } else {
        match oracle {
            None => Err(BettingError::InvalidOracleData),
            Some(p) => spec_payout(bet.usd_amount, odds_for(pool, bet.bet_type), p.price, p.expo),
        }
    }
}

/// The placement transition: the created bet record and the pool with its
/// total advanced on success, the exact error otherwise, checked fail-fast
/// in this order: the event must not have started nor be settled, the token
/// index must name an accepted token matching the staked mint, an oracle
/// reading must be present, the normalization must not overflow, and the
/// pool total must not overflow.
pub open spec fn spec_place_bet(
    pool: BettingPool,
    bettor: AccountId,
    amount: u64,
    bet_type: BetType,
    token_index: u8,
    bet_token_mint: AccountId,
    now: i64,
    oracle: Option<OraclePrice>,
) -> Result<(Bet, BettingPool), BettingError> {
    if now >= pool.start_time {
        Err(BettingError::EventAlreadyStarted)
    } else if pool.is_settled {
        Err(BettingError::EventAlreadySettled)
    } else if token_index >= pool.accepted_tokens@.len() {
        Err(BettingError::InvalidToken)
    } else if pool.accepted_tokens@[token_index as int].mint != bet_token_mint {
        Err(BettingError::InvalidToken)
    } else {
        match oracle {
            None => Err(BettingError::InvalidOracleData),
            Some(p) => match spec_normalize(amount, p.price, p.expo) {
                Err(e) => Err(e),
                Ok(usd) => if pool.total_pool + usd > u64::MAX {
                    Err(BettingError::CalculationError)
                } else {
                    Ok(
                        (
                            Bet {
                                bettor,
                                amount,
                                usd_amount: usd,
                                bet_type,
                                claimed: false,
                                token_index,
                            },
                            BettingPool { total_pool: (pool.total_pool + usd) as u64, ..pool },
                        ),
                    )
                },
            },
        }
    }
}

/// The claim transition: the payout and the bet marked claimed on success,
/// the exact error otherwise. A claim needs a settled pool and an unclaimed
/// bet; it then pays per [`spec_compute_payout`] and marks the bet claimed
/// even when the payout is zero, so that a losing claim is terminal too.
pub open spec fn spec_claim(pool: BettingPool, bet: Bet, oracle: Option<OraclePrice>) -> Result<
    (u64, Bet),
    BettingError,
> {
    if !pool.is_settled {
        Err(BettingError::EventNotSettled)
    } else if bet.claimed {
        Err(BettingError::AlreadyClaimed)
    } else {
        match spec_compute_payout(bet, pool, oracle) {
            Err(e) => Err(e),
            Ok(v) => Ok((v, Bet { claimed: true, ..bet })),
        }
    }
}

/// Converts a raw token amount to the common unit of account at the given
/// oracle reading, exactly as [`spec_normalize`] states, with every step
/// checked.
pub fn normalize_stake(amount: u64, price: i64, expo: i32) -> (r: Result<u64, BettingError>)
    ensures
        r == spec_normalize(amount, price, expo),
{
    if price < 0 {
        return Err(BettingError::CalculationError);
    }
    let divisor: u64 = match pow10_checked(abs_expo_exec(expo)) {
        Some(v) => v,
        None => {
            return Err(BettingError::CalculationError);
        },
    };
    let product: u64 = match amount.checked_mul(price as u64) {
        Some(v) => v,
        None => {
            return Err(BettingError::CalculationError);
        },
    };
    if product > i64::MAX as u64 {
        return Err(BettingError::CalculationError);
    }
    proof {
        lemma_pow10_positive(abs_expo(expo));
    }
    Ok(product / divisor)
}

/// Computes what a claim on the bet pays at the claim-time oracle reading,
/// exactly as [`spec_compute_payout`] states: zero for a loser or an
/// unsettled pool, the denormalized winnings at the pool's odds for the
/// recorded winner.
pub fn compute_payout(bet: &Bet, pool: &BettingPool, oracle: Option<OraclePrice>) -> (r: Result<
    u64,
    BettingError,
>)
    ensures
        r == spec_compute_payout(*bet, *pool, oracle),
{
    let winner: BetType = match pool.winner {
        Some(w) => w,
        None => {
            return Ok(0);
        },
    };
    if !(winner == bet.bet_type) {
        return Ok(0);
    }
    let reading: OraclePrice = match oracle {
        Some(p) => p,
        None => {
            return Err(BettingError::InvalidOracleData);
        },
    };
    let odds: u64 = match bet.bet_type {
        BetType::Home => pool.home_odds,
        BetType::Away => pool.away_odds,
        BetType::Draw => match pool.draw_odds {
            Some(d) => d,
            None => 0,
        },
    };
    let gross: u64 = match bet.usd_amount.checked_mul(odds) {
        Some(v) => v,
        None => {
            return Err(BettingError::CalculationError);
        },
    };
    let usd_winnings: u64 = gross / 100;
    let multiplier: u64 = match pow10_checked(abs_expo_exec(reading.expo)) {
        Some(v) => v,
        None => {
            return Err(BettingError::CalculationError);
        },
    };
    let scaled: u64 = match usd_winnings.checked_mul(multiplier) {
        Some(v) => v,
        None => {
            return Err(BettingError::CalculationError);
        },
    };
    if scaled > i64::MAX as u64 {
        return Err(BettingError::CalculationError);
    }
    if reading.price <= 0 {
        return Err(BettingError::CalculationError);
    }
    Ok(scaled / (reading.price as u64))
}

/// Places a stake against an open pool: validates timing, settlement state
/// and the staked token, normalizes the stake at the placement-time oracle
/// reading, creates the bet record and advances the pool total, exactly as
/// [`spec_place_bet`] states. On any error the pool is unchanged. The caller
/// must move `amount` of the staked token from the bettor to pool custody
/// and discard the new state if that transfer fails.
pub fn place_bet(
    pool: &mut BettingPool,
    bettor: AccountId,
    amount: u64,
    bet_type: BetType,
    token_index: u8,
    bet_token_mint: AccountId,
    now: i64,
    oracle: Option<OraclePrice>,
) -> (r: Result<Bet, BettingError>)
    ensures
        match spec_place_bet(*old(pool), bettor, amount, bet_type, token_index, bet_token_mint, now, oracle) {
            Ok(created) => r == Ok::<Bet, BettingError>(created.0) && *final(pool) == created.1,
            Err(e) => r == Err::<Bet, BettingError>(e) && *final(pool) == *old(pool),
        },
{
    if now >= pool.start_time {
        return Err(BettingError::EventAlreadyStarted);
    }
    if pool.is_settled {
        return Err(BettingError::EventAlreadySettled);
    }
    if (token_index as usize) >= pool.accepted_tokens.len() {
        return Err(BettingError::InvalidToken);
    }
    let expected_mint: AccountId = pool.accepted_tokens[token_index as usize].mint;
    if !(expected_mint == bet_token_mint) {
        return Err(BettingError::InvalidToken);
    }
    let reading: OraclePrice = match oracle {
        Some(p) => p,
        None => {
            return Err(BettingError::InvalidOracleData);
        },
    };
    let usd_amount: u64 = match normalize_stake(amount, reading.price, reading.expo) {
        Ok(v) => v,
        Err(e) => {
            return Err(e);
        },
    };
    let new_total: u64 = match pool.total_pool.checked_add(usd_amount) {
        Some(v) => v,
        None => {
            return Err(BettingError::CalculationError);
        },
    };
    pool.total_pool = new_total;
    Ok(Bet { bettor, amount, usd_amount, bet_type, claimed: false, token_index })
}

/// Claims a bet exactly once: on a settled pool and a not yet claimed bet it
/// computes the payout at the claim-time oracle reading and marks the bet
/// claimed, exactly as [`spec_claim`] states; on any error the bet is
/// unchanged. A nonzero payout is owed to the bettor from pool custody,
/// authorized by the pool's settlement logic, never by the bettor; the
/// caller must perform that transfer and discard the new state if it fails.
pub fn claim_winnings(pool: &BettingPool, bet: &mut Bet, oracle: Option<OraclePrice>) -> (r: Result<
    u64,
    BettingError,
>)
    ensures
        match spec_claim(*pool, *old(bet), oracle) {
            Ok(paid) => r == Ok::<u64, BettingError>(paid.0) && *final(bet) == paid.1,
            Err(e) => r == Err::<u64, BettingError>(e) && *final(bet) == *old(bet),
        },
{
    if !pool.is_settled {
        return Err(BettingError::EventNotSettled);
    }
    if bet.claimed {
        return Err(BettingError::AlreadyClaimed);
    }
    let payout: u64 = match compute_payout(bet, pool, oracle) {
        Ok(v) => v,
        Err(e) => {
            return Err(e);
        },
    };
    bet.claimed = true;
    Ok(payout)
}

} // verus!
