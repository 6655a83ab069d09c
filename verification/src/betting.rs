//! Placing a bet on an open market.

use crate::account::AccountId;
use crate::error::ShipError;
use crate::state::{Bet, BetSide, Market, MarketStatus, MarketView, MIN_BET};
use vstd::prelude::*;

verus! {

/// The accounts that placing a bet touches.
#[derive(Debug, PartialEq, Eq)]
pub struct PlaceBet {
    /// Where the market's record lives.
    pub market_key: AccountId,
    pub market: Market,
    /// The balance of the market's escrow.
    pub vault: u64,
    /// The record that will hold the new bet.
    pub bet: Bet,
    /// Who places the bet.
    pub bettor: AccountId,
}

/// What placing a bet touches, as a mathematical value: the market by its view,
/// the balance unbounded.
pub struct PlaceBetView {
    pub market_key: AccountId,
    pub market: MarketView,
    pub vault: nat,
    pub bet: Bet,
    pub bettor: AccountId,
}

impl View for PlaceBet {
    type V = PlaceBetView;

    open spec fn view(&self) -> PlaceBetView {
        PlaceBetView {
            market_key: self.market_key,
            market: self.market@,
            vault: self.vault as nat,
            bet: self.bet,
            bettor: self.bettor,
        }
    }
}

impl PlaceBetView {
    /// Whether the pools, the count of bets and the escrow fit their fields.
    pub open spec fn fits(self) -> bool {
        self.market.fits() && self.vault <= u64::MAX
    }
}

/// The first reason, if any, for which a bet is refused: a stake below
/// `MIN_BET`, then a market that is no longer open, then a time at or after
/// the deadline.
pub open spec fn place_bet_refusal(c: PlaceBetView, amount: u64, now: int) -> Option<ShipError> {
    if amount < MIN_BET {
        Some(ShipError::BetTooSmall)
    } else if c.market.status != MarketStatus::Open {
        Some(ShipError::MarketNotOpen)
    } else if now >= c.market.deadline {
        Some(ShipError::DeadlinePassed)
    } else {
        None
    }
}

/// What placing a bet does.
///
/// A bet that `place_bet_refusal` refuses is refused for that reason.
/// Otherwise the stake moves into the escrow and into the pool of its side,
/// the count of bets goes up by one, and the record holds the new, unpaid
/// bet.
pub open spec fn place_bet_rule(c: PlaceBetView, side: BetSide, amount: u64, now: int) -> Result<
    PlaceBetView,
    ShipError,
> {
    match place_bet_refusal(c, amount, now) {
        Some(e) => Err(e),
        None => Ok(
            PlaceBetView {
                market: c.market.with_stake(side, amount as nat),
                vault: c.vault + amount as nat,
                bet: Bet::placed(c.bettor, c.market_key, side, amount),
                ..c
            },
        ),
    }
}

/// Whether a bet can be placed without a pool, the count of bets or the
/// escrow running over. A refused bet always can.
pub open spec fn place_bet_fits(c: PlaceBetView, side: BetSide, amount: u64, now: int) -> bool {
    place_bet_rule(c, side, amount, now) matches Ok(next) ==> next.fits()
}

impl PlaceBet {
    fn refusal(&self, amount: u64, now: i64) -> (r: Option<ShipError>)
        ensures
            r == place_bet_refusal(self@, amount, now as int),
    {
        if amount < MIN_BET {
            Some(ShipError::BetTooSmall)
        } else if self.market.status != MarketStatus::Open {
            Some(ShipError::MarketNotOpen)
        } else if now >= self.market.deadline {
            Some(ShipError::DeadlinePassed)
        } else {
            None
        }
    }

    /// Whether `place_bet` may be called with these arguments: see
    /// `place_bet_fits`.
    pub fn fits(&self, side: BetSide, amount: u64, now: i64) -> (b: bool)
        ensures
            b == place_bet_fits(self@, side, amount, now as int),
    {
        if self.refusal(amount, now).is_some() {
            return true;
        }
        let pool = match side {
            BetSide::Ship => self.market.ship_pool,
            BetSide::Slip => self.market.slip_pool,
        };
        pool <= u64::MAX - amount && self.market.total_bettors < u32::MAX && self.vault <= u64::MAX
            - amount
    }
}

/// Places a bet of `amount` on `side` for `ctx.bettor`, at time `now`.
///
/// The caller moves the stake from the bettor into the escrow; `ctx.vault`
/// is the balance the escrow then has. That the bettor has no bet on this
/// market yet is for the storage that keeps the records to see to.
pub fn place_bet(ctx: &mut PlaceBet, side: BetSide, amount: u64, now: i64) -> (r: Result<
    (),
    ShipError,
>)
    requires
        place_bet_fits(old(ctx)@, side, amount, now as int),
    ensures
        match place_bet_rule(old(ctx)@, side, amount, now as int) {
            Ok(next) => r is Ok && final(ctx)@ == next,
            Err(e) => r == Err::<(), ShipError>(e) && *final(ctx) == *old(ctx),
        },
{
    if let Some(e) = ctx.refusal(amount, now) {
        return Err(e);
    }
    match side {
        BetSide::Ship => {
            ctx.market.ship_pool = ctx.market.ship_pool + amount;
        },
        BetSide::Slip => {
            ctx.market.slip_pool = ctx.market.slip_pool + amount;
        },
    }
    ctx.market.total_bettors = ctx.market.total_bettors + 1;
    ctx.vault = ctx.vault + amount;
    ctx.bet = Bet { bettor: ctx.bettor, market: ctx.market_key, side, amount, claimed: false };
    Ok(())
}

} // verus!
