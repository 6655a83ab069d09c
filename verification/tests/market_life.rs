use ship_or_slip::{
    claim, create_market, place_bet, resolve_market, AccountId, Bet, BetSide, Claim, CreateMarket,
    Market, MarketOutcome, MarketStatus, PlaceBet, ResolveMarket, ShipError, MIN_BET,
};

fn key(n: u8) -> AccountId {
    AccountId { bytes: [n; 32] }
}

const MARKET: u8 = 99;

fn blank_market() -> Market {
    Market {
        authority: key(0),
        repo: String::new(),
        pr_number: 0,
        deadline: 0,
        ship_pool: 0,
        slip_pool: 0,
        total_bettors: 0,
        status: MarketStatus::Open,
        outcome: MarketOutcome::Pending,
    }
}

fn blank_bet() -> Bet {
    Bet { bettor: key(0), market: key(0), side: BetSide::Ship, amount: 0, claimed: false }
}

/// A market with its escrow and its bets, as a storage would keep them.
struct Desk {
    market: Market,
    vault: u64,
    bets: Vec<Bet>,
    paid: u64,
}

impl Desk {
    fn open(deadline: i64, now: i64) -> Desk {
        let mut ctx = CreateMarket { market: blank_market(), vault: 0, authority: key(1) };
        assert_eq!(create_market(&mut ctx, String::from("rust-lang/rust"), 4242, deadline, now), Ok(()));
        Desk { market: ctx.market, vault: ctx.vault, bets: Vec::new(), paid: 0 }
    }

    fn bet(&mut self, bettor: u8, side: BetSide, amount: u64, now: i64) -> Result<(), ShipError> {
        let mut ctx = PlaceBet {
            market_key: key(MARKET),
            market: self.market.clone(),
            vault: self.vault,
            bet: blank_bet(),
            bettor: key(bettor),
        };
        assert!(ctx.fits(side, amount, now));
        let r = place_bet(&mut ctx, side, amount, now);
        if r.is_ok() {
            self.bets.push(ctx.bet);
        }
        self.market = ctx.market;
        self.vault = ctx.vault;
        self.check();
        r
    }

    fn resolve(&mut self, outcome: MarketOutcome) -> Result<(), ShipError> {
        let mut ctx = ResolveMarket { market: self.market.clone(), oracle: key(7) };
        let r = resolve_market(&mut ctx, outcome);
        self.market = ctx.market;
        self.check();
        r
    }

    fn claim(&mut self, index: usize, bettor: u8) -> Result<u64, ShipError> {
        let mut ctx = Claim {
            market_key: key(MARKET),
            market: self.market.clone(),
            vault: self.vault,
            bet: self.bets[index],
            bettor: key(bettor),
        };
        assert!(ctx.fits());
        let r = claim(&mut ctx);
        if let Ok(payout) = r {
            self.paid += payout;
        }
        self.bets[index] = ctx.bet;
        self.vault = ctx.vault;
        self.check();
        r
    }

    /// The escrow holds what was staked less what was paid.
    fn check(&self) {
        let staked = self.market.ship_pool + self.market.slip_pool;
        assert!(self.paid <= staked);
        assert_eq!(self.vault, staked - self.paid);
        let of = |side: BetSide| -> u64 {
            self.bets.iter().filter(|b| b.side == side).map(|b| b.amount).sum()
        };
        assert_eq!(of(BetSide::Ship), self.market.ship_pool);
        assert_eq!(of(BetSide::Slip), self.market.slip_pool);
        assert_eq!(self.market.total_bettors as usize, self.bets.len());
        assert_eq!(
            self.market.status == MarketStatus::Open,
            self.market.outcome == MarketOutcome::Pending
        );
    }
}

#[test]
fn a_market_runs_from_creation_to_payout() {
    let mut desk = Desk::open(2_000, 1_000);
    assert_eq!(desk.bet(2, BetSide::Ship, 3 * MIN_BET, 1_500), Ok(()));
    assert_eq!(desk.bet(3, BetSide::Slip, MIN_BET, 1_600), Ok(()));
    assert_eq!(desk.market.ship_pool, 3 * MIN_BET);
    assert_eq!(desk.market.slip_pool, MIN_BET);
    assert_eq!(desk.vault, 4 * MIN_BET);
    assert_eq!(desk.claim(0, 2), Err(ShipError::MarketNotResolved));
    assert_eq!(desk.resolve(MarketOutcome::Ship), Ok(()));
    assert_eq!(desk.bet(4, BetSide::Ship, MIN_BET, 1_700), Err(ShipError::MarketNotOpen));
    assert_eq!(desk.claim(1, 3), Err(ShipError::BetLost));
    assert_eq!(desk.claim(0, 3), Err(ShipError::Unauthorized));
    assert_eq!(desk.claim(0, 2), Ok(4 * MIN_BET));
    assert_eq!(desk.claim(0, 2), Err(ShipError::AlreadyClaimed));
    assert_eq!(desk.resolve(MarketOutcome::Slip), Err(ShipError::MarketNotOpen));
    assert_eq!(desk.vault, 0);
    assert_eq!(desk.paid, 4 * MIN_BET);
}

#[test]
fn the_escrow_covers_every_winner_and_keeps_the_dust() {
    let mut desk = Desk::open(2_000, 1_000);
    assert_eq!(desk.bet(10, BetSide::Ship, 10_000_001, 1_100), Ok(()));
    assert_eq!(desk.bet(11, BetSide::Slip, 10_000_000, 1_200), Ok(()));
    assert_eq!(desk.bet(12, BetSide::Ship, 10_000_002, 1_300), Ok(()));
    assert_eq!(desk.bet(13, BetSide::Ship, 10_000_004, 1_400), Ok(()));
    assert_eq!(desk.bet(14, BetSide::Slip, 33_333_333, 1_500), Ok(()));
    assert_eq!(desk.resolve(MarketOutcome::Ship), Ok(()));

    let total: u128 = 73_333_340;
    let winning: u128 = 30_000_007;
    assert_eq!((desk.market.ship_pool + desk.market.slip_pool) as u128, total);
    assert_eq!(desk.market.ship_pool as u128, winning);

    // In an order of their own, each winner gets its share, rounded down.
    assert_eq!(desk.claim(3, 13), Ok(24_444_450));
    assert_eq!(desk.claim(0, 10), Ok(24_444_443));
    assert_eq!(desk.claim(2, 12), Ok(24_444_445));
    assert_eq!(10_000_004 * total / winning, 24_444_450);
    assert_eq!(10_000_001 * total / winning, 24_444_443);
    assert_eq!(10_000_002 * total / winning, 24_444_445);
    assert_eq!(desk.paid, 73_333_338);

    // Rounding left something behind, and nobody can take it.
    assert_eq!(desk.vault, 2);
    for (index, bettor) in [(0, 10), (2, 12), (3, 13)] {
        assert_eq!(desk.claim(index, bettor), Err(ShipError::AlreadyClaimed));
    }
    for (index, bettor) in [(1, 11), (4, 14)] {
        assert_eq!(desk.claim(index, bettor), Err(ShipError::BetLost));
    }
    assert_eq!(desk.vault, 2);
}

#[test]
fn a_market_without_a_bet_on_the_winning_side_pays_nobody() {
    let mut desk = Desk::open(2_000, 1_000);
    assert_eq!(desk.bet(10, BetSide::Slip, 2 * MIN_BET, 1_100), Ok(()));
    assert_eq!(desk.bet(11, BetSide::Slip, MIN_BET, 1_200), Ok(()));
    assert_eq!(desk.resolve(MarketOutcome::Ship), Ok(()));
    assert_eq!(desk.claim(0, 10), Err(ShipError::BetLost));
    assert_eq!(desk.claim(1, 11), Err(ShipError::BetLost));
    assert_eq!(desk.vault, 3 * MIN_BET);
    assert_eq!(desk.paid, 0);
}

#[test]
fn a_market_may_be_resolved_before_its_deadline_and_then_takes_no_bets() {
    let mut desk = Desk::open(2_000, 1_000);
    assert_eq!(desk.bet(10, BetSide::Ship, MIN_BET, 1_100), Ok(()));
    assert_eq!(desk.resolve(MarketOutcome::Ship), Ok(()));
    assert_eq!(desk.bet(11, BetSide::Slip, MIN_BET, 1_200), Err(ShipError::MarketNotOpen));
    assert_eq!(desk.claim(0, 10), Ok(MIN_BET));
}

#[test]
fn bets_stop_at_the_deadline_and_claims_do_not() {
    let mut desk = Desk::open(2_000, 1_000);
    assert_eq!(desk.bet(10, BetSide::Ship, MIN_BET, 1_999), Ok(()));
    assert_eq!(desk.bet(11, BetSide::Slip, MIN_BET, 2_000), Err(ShipError::DeadlinePassed));
    assert_eq!(desk.bets.len(), 1);
    assert_eq!(desk.resolve(MarketOutcome::Ship), Ok(()));
    assert_eq!(desk.claim(0, 10), Ok(MIN_BET));
}

#[test]
fn every_error_has_its_message() {
    assert_eq!(ShipError::RepoTooLong.message(), "Repo name too long");
    assert_eq!(ShipError::DeadlinePassed.message(), "Deadline has passed");
    assert_eq!(ShipError::MarketNotOpen.message(), "Market is not open");
    assert_eq!(ShipError::BetTooSmall.message(), "Bet too small (min 0.01 SOL)");
    assert_eq!(ShipError::AlreadyClaimed.message(), "Already claimed");
    assert_eq!(ShipError::MarketNotResolved.message(), "Market not resolved");
    assert_eq!(ShipError::BetLost.message(), "Bet lost");
    assert_eq!(ShipError::InvalidOutcome.message(), "Invalid outcome");
    assert_eq!(
        ShipError::Unauthorized.message(),
        "Bet does not belong to this bettor and market"
    );
    assert_eq!(ShipError::InsufficientEscrow.message(), "Escrow cannot cover the payout");
}

#[test]
fn addresses_are_equal_byte_for_byte() {
    assert_eq!(key(5), key(5));
    assert_ne!(key(5), key(6));
    let mut other = key(5);
    other.bytes[31] = 6;
    assert_ne!(key(5), other);
    other.bytes[31] = 5;
    assert_eq!(key(5), other);
}

#[test]
fn a_copy_of_a_market_is_the_same_market() {
    let mut desk = Desk::open(2_000, 1_000);
    assert_eq!(desk.bet(10, BetSide::Ship, MIN_BET, 1_100), Ok(()));
    assert_eq!(desk.resolve(MarketOutcome::Slip), Ok(()));
    let copy = desk.market.clone();
    assert_eq!(copy, desk.market);
    assert_eq!(copy.repo, "rust-lang/rust");
    assert_eq!(copy.pr_number, 4242);
    assert_eq!(copy.deadline, 2_000);
    assert_eq!(copy.ship_pool, MIN_BET);
    assert_eq!(copy.total_bettors, 1);
    assert_eq!(copy.outcome, MarketOutcome::Slip);
}
