//! The laws the betting core obeys, each proved against the transition
//! specifications: total accounting across placements, one-way lifecycle
//! flags, exactly-once claiming, the betting lock at event start, zero
//! payouts for losers and unpriced draws, and rejection of overflowing
//! stakes and payouts.

use vstd::prelude::*;

use crate::bet::lemma_sum_normalized_push;
use crate::bet::sum_normalized;
use crate::bet::Bet;
use crate::engine::spec_claim;
use crate::engine::spec_compute_payout;
use crate::engine::spec_place_bet;
use crate::errors::BettingError;
use crate::math::abs_expo;
use crate::math::pow10;
use crate::pool::odds_for;
use crate::pool::pool_wf;
use crate::pool::spec_settle;
use crate::pool::BettingPool;
use crate::types::AccountId;
use crate::types::BetType;
use crate::types::OraclePrice;
use crate::types::SettlementInput;

verus! {

/// One requested stake placement: the arguments of one placement attempt,
/// with the clock and oracle reading observed when it was made.
pub struct StakePlacement {
    pub bettor: AccountId,
    pub amount: u64,
    pub bet_type: BetType,
    pub token_index: u8,
    pub bet_token_mint: AccountId,
    pub now: i64,
    pub oracle: Option<OraclePrice>,
}

/// The placement transition applied to one requested placement.
pub open spec fn spec_place_request(pool: BettingPool, req: StakePlacement) -> Result<
    (Bet, BettingPool),
    BettingError,
> {
    spec_place_bet(
        pool,
        req.bettor,
        req.amount,
        req.bet_type,
        req.token_index,
        req.bet_token_mint,
        req.now,
        req.oracle,
    )
}

/// The pool after a sequence of placement attempts, in order: a successful
/// attempt advances the pool, a failed one leaves it unchanged.
pub open spec fn pool_after(pool: BettingPool, reqs: Seq<StakePlacement>) -> BettingPool
    decreases reqs.len(),
{
    if reqs.len() == 0 {
        pool
    } else {
        let prev = pool_after(pool, reqs.drop_last());
        match spec_place_request(prev, reqs.last()) {
            Ok(created) => created.1,
            Err(_) => prev,
        }
    }
}

/// The bet records a sequence of placement attempts creates, in order: one
/// per successful attempt, none for a failed one.
pub open spec fn bets_after(pool: BettingPool, reqs: Seq<StakePlacement>) -> Seq<Bet>
    decreases reqs.len(),
{
    if reqs.len() == 0 {
        Seq::<Bet>::empty()
    } else {
        let prev_bets = bets_after(pool, reqs.drop_last());
        match spec_place_request(pool_after(pool, reqs.drop_last()), reqs.last()) {
            Ok(created) => prev_bets.push(created.0),
            Err(_) => prev_bets,
        }
    }
}

/// Total accounting: against a freshly opened pool, whose total is zero,
/// every sequence of placement attempts leaves the pool total equal to the
/// sum of the normalized amounts of the bets it created — successful
/// placements are additive, failed ones create no bet and change nothing,
/// and nothing is ever retroactively adjusted.
pub proof fn lemma_total_accounting(pool: BettingPool, reqs: Seq<StakePlacement>)
    requires
        pool.total_pool == 0,
    ensures
        pool_after(pool, reqs).total_pool == sum_normalized(bets_after(pool, reqs)),
    decreases reqs.len(),
{
    if reqs.len() > 0 {
        lemma_total_accounting(pool, reqs.drop_last());
        let prev = pool_after(pool, reqs.drop_last());
        let prev_bets = bets_after(pool, reqs.drop_last());
        match spec_place_request(prev, reqs.last()) {
            Ok(created) => {
                lemma_sum_normalized_push(prev_bets, created.0);
            },
            Err(_) => {},
        }
    }
}

/// Total accounting, one step at a time: when a pool's total equals the sum of
/// the normalized amounts of the bets placed so far, a successful placement
/// leaves the new total equal to the sum over those bets plus the created
/// one. So, by induction over any sequence of successful placements, the
/// pool total always equals the sum of all created bets' normalized amounts.
pub proof fn lemma_total_accounting_place(
    pool: BettingPool,
    bets: Seq<Bet>,
    bettor: AccountId,
    amount: u64,
    bet_type: BetType,
    token_index: u8,
    bet_token_mint: AccountId,
    now: i64,
    oracle: Option<OraclePrice>,
)
    requires
        pool.total_pool == sum_normalized(bets),
        spec_place_bet(pool, bettor, amount, bet_type, token_index, bet_token_mint, now, oracle) is Ok,
    ensures
        (spec_place_bet(pool, bettor, amount, bet_type, token_index, bet_token_mint, now, oracle)->Ok_0).1.total_pool
            == sum_normalized(bets.push((spec_place_bet(pool, bettor, amount, bet_type, token_index, bet_token_mint, now, oracle)->Ok_0).0)),
{
    let created = spec_place_bet(pool, bettor, amount, bet_type, token_index, bet_token_mint, now, oracle)->Ok_0;
    lemma_sum_normalized_push(bets, created.0);
}

/// One-way flags under placement: placing a bet never touches the settled
/// flag or the recorded winner, and keeps the pool well formed.
pub proof fn lemma_place_preserves_flags(
    pool: BettingPool,
    bettor: AccountId,
    amount: u64,
    bet_type: BetType,
    token_index: u8,
    bet_token_mint: AccountId,
    now: i64,
    oracle: Option<OraclePrice>,
)
    ensures
        spec_place_bet(pool, bettor, amount, bet_type, token_index, bet_token_mint, now, oracle) matches Ok(created)
            ==> created.1.is_settled == pool.is_settled && created.1.winner == pool.winner
                && (pool_wf(pool) ==> pool_wf(created.1)),
{
}

/// One-way flags under settlement: a settled pool can never be settled
/// again, a recorded winner can never be changed, and a successful
/// settlement records a winner, sets the one-way flag and touches nothing
/// else.
pub proof fn lemma_settle_one_way(pool: BettingPool, caller: AccountId, input: SettlementInput)
    requires
        pool_wf(pool),
    ensures
        pool.is_settled ==> spec_settle(pool, caller, input) == Err::<BettingPool, BettingError>(BettingError::EventAlreadySettled),
        pool.winner is Some ==> spec_settle(pool, caller, input) is Err,
        spec_settle(pool, caller, input) matches Ok(settled)
            ==> settled.is_settled && settled.winner is Some && pool_wf(settled)
                && settled.total_pool == pool.total_pool,
{
}

/// One-way flag under claiming: a claimed bet can never be claimed again,
/// and a successful claim leaves the bet claimed. The claim transition
/// takes the pool immutably, so claiming can touch no pool flag at all.
pub proof fn lemma_claim_one_way(pool: BettingPool, bet: Bet, oracle: Option<OraclePrice>)
    ensures
        bet.claimed ==> spec_claim(pool, bet, oracle) is Err,
        spec_claim(pool, bet, oracle) matches Ok(paid) ==> paid.1.claimed,
{
}

/// Claim idempotence: after a successful claim, every later claim on the
/// resulting bet fails with `AlreadyClaimed`, whatever the oracle then
/// reads, so nothing is ever paid twice.
pub proof fn lemma_claim_idempotent(
    pool: BettingPool,
    bet: Bet,
    oracle: Option<OraclePrice>,
    later_oracle: Option<OraclePrice>,
)
    requires
        spec_claim(pool, bet, oracle) is Ok,
    ensures
        spec_claim(pool, (spec_claim(pool, bet, oracle)->Ok_0).1, later_oracle) == Err::<(u64, Bet), BettingError>(BettingError::AlreadyClaimed),
{
}

/// No stakes after the lock: from the start time on, placement fails with
/// `EventAlreadyStarted`, whatever the settlement state and the other
/// arguments.
pub proof fn lemma_no_stakes_after_lock(
    pool: BettingPool,
    bettor: AccountId,
    amount: u64,
    bet_type: BetType,
    token_index: u8,
    bet_token_mint: AccountId,
    now: i64,
    oracle: Option<OraclePrice>,
)
    requires
        now >= pool.start_time,
    ensures
        spec_place_bet(pool, bettor, amount, bet_type, token_index, bet_token_mint, now, oracle) == Err::<(Bet, BettingPool), BettingError>(BettingError::EventAlreadyStarted),
{
}

/// A bet that did not pick the recorded winner pays exactly zero, whatever
/// its amount and whatever the oracle reads; so does any bet while no winner
/// is recorded.
pub proof fn lemma_losing_bet_pays_zero(bet: Bet, pool: BettingPool, oracle: Option<OraclePrice>)
    requires
        pool.winner != Some(bet.bet_type),
    ensures
        spec_compute_payout(bet, pool, oracle) == Ok::<u64, BettingError>(0u64),
{
}

/// A draw bet wins nothing when the pool was created without draw odds: the
/// absent entry resolves to zero odds, not to a failure, whenever the
/// claim-time reading is usable at all.
pub proof fn lemma_draw_without_odds_pays_zero(bet: Bet, pool: BettingPool, reading: OraclePrice)
    requires
        pool.winner == Some(BetType::Draw),
        bet.bet_type == BetType::Draw,
        pool.draw_odds is None,
        reading.price > 0,
        pow10(abs_expo(reading.expo)) <= i64::MAX,
    ensures
        spec_compute_payout(bet, pool, Some(reading)) == Ok::<u64, BettingError>(0u64),
{
}

/// Overflow safety at placement: when every placement check passes but the
/// normalization would leave the oracle's signed 64-bit range, placement
/// fails with `CalculationError`; the executable placement then leaves the
/// pool unchanged.
pub proof fn lemma_stake_overflow_rejected(
    pool: BettingPool,
    bettor: AccountId,
    amount: u64,
    bet_type: BetType,
    token_index: u8,
    bet_token_mint: AccountId,
    now: i64,
    reading: OraclePrice,
)
    requires
        now < pool.start_time,
        !pool.is_settled,
        token_index < pool.accepted_tokens@.len(),
        pool.accepted_tokens@[token_index as int].mint == bet_token_mint,
        reading.price >= 0,
        amount * reading.price > i64::MAX,
    ensures
        spec_place_bet(pool, bettor, amount, bet_type, token_index, bet_token_mint, now, Some(reading)) == Err::<(Bet, BettingPool), BettingError>(BettingError::CalculationError),
{
}

/// Overflow safety at claim time: a winning bet whose gross winnings would
/// leave the 64-bit range is paid nothing and fails with
/// `CalculationError`; the executable claim then leaves the bet unchanged.
pub proof fn lemma_payout_overflow_rejected(bet: Bet, pool: BettingPool, reading: OraclePrice)
    requires
        pool.winner == Some(bet.bet_type),
        bet.usd_amount * odds_for(pool, bet.bet_type) > u64::MAX,
    ensures
        spec_compute_payout(bet, pool, Some(reading)) == Err::<u64, BettingError>(BettingError::CalculationError),
{
}

} // verus!
