use ship_or_slip::{
    place_bet, AccountId, Bet, BetSide, Market, MarketOutcome, MarketStatus, PlaceBet, ShipError,
    MIN_BET,
};

fn key(n: u8) -> AccountId {
    AccountId { bytes: [n; 32] }
}

fn open_market() -> Market {
    Market {
        authority: key(1),
        repo: String::from("rust-lang/rust"),
        pr_number: 4242,
        deadline: 2_000,
        ship_pool: 0,
        slip_pool: 0,
        total_bettors: 0,
        status: MarketStatus::Open,
        outcome: MarketOutcome::Pending,
    }
}

fn empty_slot() -> Bet {
    Bet { bettor: key(0), market: key(0), side: BetSide::Slip, amount: 0, claimed: true }
}

fn at_market(market: Market, vault: u64) -> PlaceBet {
    PlaceBet { market_key: key(9), market, vault, bet: empty_slot(), bettor: key(2) }
}

#[test]
fn bet_below_the_floor_is_too_small() {
    let mut ctx = at_market(open_market(), 0);
    assert!(ctx.fits(BetSide::Ship, MIN_BET - 1, 1_500));
    assert_eq!(place_bet(&mut ctx, BetSide::Ship, MIN_BET - 1, 1_500), Err(ShipError::BetTooSmall));
    assert_eq!(ctx, at_market(open_market(), 0));
}

#[test]
fn bet_of_nothing_is_too_small() {
    let mut ctx = at_market(open_market(), 0);
    assert_eq!(place_bet(&mut ctx, BetSide::Slip, 0, 1_500), Err(ShipError::BetTooSmall));
}

#[test]
fn bet_at_the_floor_is_taken() {
    let mut ctx = at_market(open_market(), 0);
    assert_eq!(MIN_BET, 10_000_000);
    assert!(ctx.fits(BetSide::Ship, MIN_BET, 1_500));
    assert_eq!(place_bet(&mut ctx, BetSide::Ship, MIN_BET, 1_500), Ok(()));
    assert_eq!(ctx.market.ship_pool, 10_000_000);
    assert_eq!(ctx.market.slip_pool, 0);
    assert_eq!(ctx.market.total_bettors, 1);
    assert_eq!(ctx.vault, 10_000_000);
    assert_eq!(
        ctx.bet,
        Bet { bettor: key(2), market: key(9), side: BetSide::Ship, amount: 10_000_000, claimed: false }
    );
}

#[test]
fn bet_on_slip_goes_to_the_slip_pool() {
    let mut market = open_market();
    market.ship_pool = 50_000_000;
    market.slip_pool = 20_000_000;
    market.total_bettors = 4;
    let mut ctx = at_market(market, 70_000_000);
    assert_eq!(place_bet(&mut ctx, BetSide::Slip, 12_345_678, 0), Ok(()));
    assert_eq!(ctx.market.ship_pool, 50_000_000);
    assert_eq!(ctx.market.slip_pool, 32_345_678);
    assert_eq!(ctx.market.total_bettors, 5);
    assert_eq!(ctx.vault, 82_345_678);
    assert_eq!(ctx.bet.side, BetSide::Slip);
    assert_eq!(ctx.bet.amount, 12_345_678);
    assert!(!ctx.bet.claimed);
}

#[test]
fn bet_leaves_the_rest_of_the_market_alone() {
    let mut ctx = at_market(open_market(), 0);
    assert_eq!(place_bet(&mut ctx, BetSide::Ship, MIN_BET, 1_999), Ok(()));
    let mut expected = open_market();
    expected.ship_pool = MIN_BET;
    expected.total_bettors = 1;
    assert_eq!(ctx.market, expected);
    assert_eq!(ctx.market_key, key(9));
    assert_eq!(ctx.bettor, key(2));
}

#[test]
fn bet_on_a_resolved_market_is_refused() {
    let mut market = open_market();
    market.status = MarketStatus::Resolved;
    market.outcome = MarketOutcome::Ship;
    let mut ctx = at_market(market.clone(), 0);
    assert_eq!(place_bet(&mut ctx, BetSide::Ship, MIN_BET, 1_500), Err(ShipError::MarketNotOpen));
    assert_eq!(ctx, at_market(market, 0));
}

#[test]
fn bet_at_the_deadline_is_late() {
    let mut ctx = at_market(open_market(), 0);
    assert_eq!(place_bet(&mut ctx, BetSide::Ship, MIN_BET, 2_000), Err(ShipError::DeadlinePassed));
    assert_eq!(ctx, at_market(open_market(), 0));
}

#[test]
fn bet_after_the_deadline_is_late() {
    let mut ctx = at_market(open_market(), 0);
    assert_eq!(place_bet(&mut ctx, BetSide::Ship, MIN_BET, 2_001), Err(ShipError::DeadlinePassed));
}

#[test]
fn bet_just_before_the_deadline_is_taken() {
    let mut ctx = at_market(open_market(), 0);
    assert_eq!(place_bet(&mut ctx, BetSide::Ship, MIN_BET, 1_999), Ok(()));
}

#[test]
fn bet_names_the_small_stake_before_the_closed_market() {
    let mut market = open_market();
    market.status = MarketStatus::Resolved;
    market.outcome = MarketOutcome::Slip;
    let mut ctx = at_market(market, 0);
    assert_eq!(place_bet(&mut ctx, BetSide::Ship, 1, 5_000), Err(ShipError::BetTooSmall));
}

#[test]
fn bet_names_the_closed_market_before_the_deadline() {
    let mut market = open_market();
    market.status = MarketStatus::Resolved;
    market.outcome = MarketOutcome::Slip;
    let mut ctx = at_market(market, 0);
    assert_eq!(place_bet(&mut ctx, BetSide::Ship, MIN_BET, 5_000), Err(ShipError::MarketNotOpen));
}

#[test]
fn bet_may_fill_a_pool_to_the_brim() {
    let mut market = open_market();
    market.ship_pool = u64::MAX - MIN_BET;
    let mut ctx = at_market(market, 0);
    assert!(ctx.fits(BetSide::Ship, MIN_BET, 1_500));
    assert_eq!(place_bet(&mut ctx, BetSide::Ship, MIN_BET, 1_500), Ok(()));
    assert_eq!(ctx.market.ship_pool, u64::MAX);
}

#[test]
fn fits_sees_a_pool_run_over() {
    let mut market = open_market();
    market.ship_pool = u64::MAX - MIN_BET + 1;
    let ctx = at_market(market, 0);
    assert!(!ctx.fits(BetSide::Ship, MIN_BET, 1_500));
    // The other pool has room, and a refused bet changes nothing.
    assert!(ctx.fits(BetSide::Slip, MIN_BET, 1_500));
    assert!(ctx.fits(BetSide::Ship, MIN_BET, 2_000));
    assert!(ctx.fits(BetSide::Ship, MIN_BET - 1, 1_500));
}

#[test]
fn fits_sees_the_escrow_run_over() {
    let ctx = at_market(open_market(), u64::MAX - MIN_BET + 1);
    assert!(!ctx.fits(BetSide::Ship, MIN_BET, 1_500));
    let ctx = at_market(open_market(), u64::MAX - MIN_BET);
    assert!(ctx.fits(BetSide::Ship, MIN_BET, 1_500));
}

#[test]
fn fits_sees_the_count_of_bets_run_over() {
    let mut market = open_market();
    market.total_bettors = u32::MAX;
    let ctx = at_market(market, 0);
    assert!(!ctx.fits(BetSide::Slip, MIN_BET, 1_500));
    let mut market = open_market();
    market.total_bettors = u32::MAX - 1;
    let mut ctx = at_market(market, 0);
    assert!(ctx.fits(BetSide::Slip, MIN_BET, 1_500));
    assert_eq!(place_bet(&mut ctx, BetSide::Slip, MIN_BET, 1_500), Ok(()));
    assert_eq!(ctx.market.total_bettors, u32::MAX);
}
