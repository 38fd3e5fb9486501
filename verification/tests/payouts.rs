use solana_sports_betting::bet::mark_claimed;
use solana_sports_betting::bet::Bet;
use solana_sports_betting::engine::claim_winnings;
use solana_sports_betting::engine::compute_payout;
use solana_sports_betting::engine::normalize_stake;
use solana_sports_betting::engine::place_bet;
use solana_sports_betting::errors::BettingError;
use solana_sports_betting::pool::initialize_betting_pool;
use solana_sports_betting::pool::settle_event;
use solana_sports_betting::pool::BettingPool;
use solana_sports_betting::types::AcceptedToken;
use solana_sports_betting::types::AccountId;
use solana_sports_betting::types::BetType;
use solana_sports_betting::types::OraclePrice;
use solana_sports_betting::types::SettlementInput;
use solana_sports_betting::types::SettlementStrategy;

const START: i64 = 1_000;

fn authority() -> AccountId {
    AccountId { id: 1 }
}

fn mint() -> AccountId {
    AccountId { id: 7 }
}

fn pool_with(draw_odds: Option<u64>) -> BettingPool {
    initialize_betting_pool(
        authority(),
        String::from("evt-p"),
        String::from("Home FC"),
        String::from("Away FC"),
        START,
        150,
        250,
        draw_odds,
        vec![AcceptedToken { mint: mint(), decimals: 6 }],
        AccountId { id: 9 },
        SettlementStrategy::OraclePriceSign,
    )
}

fn settled_with_winner(draw_odds: Option<u64>, price: i64) -> BettingPool {
    let mut pool = pool_with(draw_odds);
    let input = SettlementInput::OracleReading(Some(OraclePrice { price, expo: 0 }));
    settle_event(&mut pool, authority(), input).unwrap();
    pool
}

fn bet_on(outcome: BetType, usd_amount: u64) -> Bet {
    Bet {
        bettor: AccountId { id: 42 },
        amount: usd_amount,
        usd_amount,
        bet_type: outcome,
        claimed: false,
        token_index: 0,
    }
}

fn unit_price() -> Option<OraclePrice> {
    Some(OraclePrice { price: 1, expo: 0 })
}

#[test]
fn winning_stake_of_1000_at_odds_150_pays_1500() {
    let pool = settled_with_winner(None, 5);
    let bet = bet_on(BetType::Home, 1_000);
    assert_eq!(compute_payout(&bet, &pool, unit_price()), Ok(1_500));
}

#[test]
fn losing_bet_pays_zero_whatever_its_amount() {
    let pool = settled_with_winner(None, 5);
    for amount in [0u64, 1, 1_000, u64::MAX] {
        let bet = bet_on(BetType::Away, amount);
        assert_eq!(compute_payout(&bet, &pool, unit_price()), Ok(0));
    }
}

#[test]
fn unsettled_pool_yields_nothing_claimable() {
    let pool = pool_with(None);
    let bet = bet_on(BetType::Home, 1_000);
    assert_eq!(compute_payout(&bet, &pool, unit_price()), Ok(0));
}

#[test]
fn draw_bet_without_draw_odds_pays_zero() {
    let pool = settled_with_winner(None, 0);
    assert_eq!(pool.winner, Some(BetType::Draw));
    let bet = bet_on(BetType::Draw, 1_000);
    assert_eq!(compute_payout(&bet, &pool, unit_price()), Ok(0));
}

#[test]
fn draw_bet_with_draw_odds_pays_them() {
    let pool = settled_with_winner(Some(300), 0);
    let bet = bet_on(BetType::Draw, 1_000);
    assert_eq!(compute_payout(&bet, &pool, unit_price()), Ok(3_000));
}

#[test]
fn payout_denormalizes_at_the_claim_time_price() {
    let pool = settled_with_winner(None, 5);
    let bet = bet_on(BetType::Home, 1_000);
    let claim_price = Some(OraclePrice { price: 50_000, expo: -4 });
    assert_eq!(compute_payout(&bet, &pool, claim_price), Ok(300));
}

#[test]
fn normalization_multiplies_before_dividing() {
    assert_eq!(normalize_stake(5_000, 2, -3), Ok(10));
    assert_eq!(normalize_stake(999, 1, -3), Ok(0));
    assert_eq!(normalize_stake(123, 1, 0), Ok(123));
}

#[test]
fn claim_pays_once_and_only_once() {
    let pool = settled_with_winner(None, 5);
    let mut bet = bet_on(BetType::Home, 1_000);
    assert_eq!(claim_winnings(&pool, &mut bet, unit_price()), Ok(1_500));
    assert!(bet.claimed);
    let before = bet;
    let r = claim_winnings(&pool, &mut bet, unit_price());
    assert_eq!(r, Err(BettingError::AlreadyClaimed));
    assert_eq!(bet, before);
}

#[test]
fn losing_claim_is_marked_claimed_too() {
    let pool = settled_with_winner(None, 5);
    let mut bet = bet_on(BetType::Away, 1_000);
    assert_eq!(claim_winnings(&pool, &mut bet, None), Ok(0));
    assert!(bet.claimed);
    let r = claim_winnings(&pool, &mut bet, None);
    assert_eq!(r, Err(BettingError::AlreadyClaimed));
}

#[test]
fn claim_before_settlement_is_rejected() {
    let pool = pool_with(None);
    let mut bet = bet_on(BetType::Home, 1_000);
    let r = claim_winnings(&pool, &mut bet, unit_price());
    assert_eq!(r, Err(BettingError::EventNotSettled));
    assert!(!bet.claimed);
}

#[test]
fn mark_claimed_is_an_idempotency_guard() {
    let mut bet = bet_on(BetType::Home, 1);
    assert_eq!(mark_claimed(&mut bet), Ok(()));
    assert!(bet.claimed);
    assert_eq!(mark_claimed(&mut bet), Err(BettingError::AlreadyClaimed));
    assert!(bet.claimed);
}

#[test]
fn scenario_two_bettors_home_wins() {
    let mut pool = pool_with(None);
    let mut bet_a = place_bet(
        &mut pool,
        AccountId { id: 100 },
        1_000,
        BetType::Home,
        0,
        mint(),
        START - 10,
        unit_price(),
    )
    .unwrap();
    let mut bet_b = place_bet(
        &mut pool,
        AccountId { id: 200 },
        1_000,
        BetType::Away,
        0,
        mint(),
        START - 5,
        unit_price(),
    )
    .unwrap();
    assert_eq!(pool.total_pool, 2_000);

    let outcome = SettlementInput::OracleReading(Some(OraclePrice { price: 5, expo: 0 }));
    assert_eq!(settle_event(&mut pool, authority(), outcome), Ok(()));
    assert_eq!(pool.winner, Some(BetType::Home));

    assert_eq!(claim_winnings(&pool, &mut bet_a, unit_price()), Ok(1_500));
    assert_eq!(claim_winnings(&pool, &mut bet_b, unit_price()), Ok(0));
    assert!(bet_a.claimed);
    assert!(bet_b.claimed);
}
