//! Paying a winning bet out of the escrow.

use crate::account::AccountId;
use crate::error::ShipError;
use crate::payout::{compute_share, payout_share};
use crate::state::{Bet, BetSide, Market, MarketOutcome, MarketStatus, MarketView};
use vstd::prelude::*;

verus! {

/// The accounts that a claim touches.
#[derive(Debug, PartialEq, Eq)]
pub struct Claim {
    /// Where the market's record lives.
    pub market_key: AccountId,
    pub market: Market,
    /// The balance of the market's escrow.
    pub vault: u64,
    pub bet: Bet,
    /// Who claims.
    pub bettor: AccountId,
}

/// What a claim touches, as a mathematical value: the market by its view,
/// the balance unbounded.
pub struct ClaimView {
    pub market_key: AccountId,
    pub market: MarketView,
    pub vault: nat,
    pub bet: Bet,
    pub bettor: AccountId,
}

impl View for Claim {
    type V = ClaimView;

    open spec fn view(&self) -> ClaimView {
        ClaimView {
            market_key: self.market_key,
            market: self.market@,
            vault: self.vault as nat,
            bet: self.bet,
            bettor: self.bettor,
        }
    }
}

impl ClaimView {
    /// What the bet earns if it is paid: its share of everything staked.
    pub open spec fn payout(self) -> nat {
        payout_share(self.bet.amount as nat, self.market.total_pool(), self.market.pool_of(self.bet.side))
    }
}

/// The first reason, if any, for which a claim is refused before any amount
/// is computed.
///
/// In this order: the market is not resolved; the bet is not the claimant's
/// or not of this market; the bet was paid before; the bet is on the losing
/// side; nothing was staked on the winning side.
pub open spec fn claim_refusal(c: ClaimView) -> Option<ShipError> {
    if c.market.status != MarketStatus::Resolved {
        Some(ShipError::MarketNotResolved)
    } else if c.bet.bettor != c.bettor || c.bet.market != c.market_key {
        Some(ShipError::Unauthorized)
    } else if c.bet.claimed {
        Some(ShipError::AlreadyClaimed)
    } else if !c.market.outcome.favours(c.bet.side) {
        Some(ShipError::BetLost)
    } else if c.market.pool_of(c.bet.side) == 0 {
        Some(ShipError::InvalidOutcome)
    } else {
        None
    }
}

/// What a claim does.
///
/// A claim that `claim_refusal` refuses is refused for that reason; one
/// whose payout the escrow cannot cover is refused too. Otherwise the payout
/// leaves the escrow and the bet is marked as paid, both or neither.
pub open spec fn claim_rule(c: ClaimView) -> Result<(ClaimView, nat), ShipError> {
    match claim_refusal(c) {
        Some(e) => Err(e),
        None => if c.payout() > c.vault {
            Err(ShipError::InsufficientEscrow)
        } else {
            Ok((ClaimView { vault: (c.vault - c.payout()) as nat, bet: c.bet.paid(), ..c }, c.payout()))
        },
    }
}

/// Whether the payout of a claim can be computed: the two pools together fit
/// a `u64`. A claim that `claim_refusal` refuses always can.
pub open spec fn claim_fits(c: ClaimView) -> bool {
    claim_refusal(c) is None ==> c.market.total_pool() <= u64::MAX
}

/// Whether a bet on `side` has won under `outcome`.
fn favours(outcome: MarketOutcome, side: BetSide) -> (won: bool)
    ensures
        won == outcome.favours(side),
{
    match (outcome, side) {
        (MarketOutcome::Ship, BetSide::Ship) => true,
        (MarketOutcome::Slip, BetSide::Slip) => true,
        _ => false,
    }
}

impl Claim {
    /// What was staked on the side of the bet.
    fn pool_of_bet(&self) -> (pool: u64)
        ensures
            pool == self@.market.pool_of(self.bet.side),
    {
        match self.bet.side {
            BetSide::Ship => self.market.ship_pool,
            BetSide::Slip => self.market.slip_pool,
        }
    }

    fn refusal(&self) -> (r: Option<ShipError>)
        ensures
            r == claim_refusal(self@),
    {
        if self.market.status != MarketStatus::Resolved {
            Some(ShipError::MarketNotResolved)
        } else if self.bet.bettor != self.bettor || self.bet.market != self.market_key {
            Some(ShipError::Unauthorized)
        } else if self.bet.claimed {
            Some(ShipError::AlreadyClaimed)
        } else if !favours(self.market.outcome, self.bet.side) {
            Some(ShipError::BetLost)
        } else if self.pool_of_bet() == 0 {
            Some(ShipError::InvalidOutcome)
        } else {
            None
        }
    }

    /// Whether `claim` may be called: see `claim_fits`.
    pub fn fits(&self) -> (b: bool)
        ensures
            b == claim_fits(self@),
    {
        self.refusal().is_some() || self.market.ship_pool <= u64::MAX - self.market.slip_pool
    }
}

/// Pays the bet of `ctx.bettor` and returns the amount paid.
///
/// The caller moves the amount from the escrow to the bettor; `ctx.vault` is
/// the balance the escrow then has.
pub fn claim(ctx: &mut Claim) -> (r: Result<u64, ShipError>)
    requires
        claim_fits(old(ctx)@),
    ensures
        match claim_rule(old(ctx)@) {
            Ok((next, payout)) => r == Ok::<u64, ShipError>(payout as u64) && payout <= u64::MAX
                && final(ctx)@ == next,
            Err(e) => r == Err::<u64, ShipError>(e) && *final(ctx) == *old(ctx),
        },
{
    if let Some(e) = ctx.refusal() {
        return Err(e);
    }
    let winning_pool = ctx.pool_of_bet();
    let total_pool = ctx.market.ship_pool + ctx.market.slip_pool;
    let share = compute_share(ctx.bet.amount, total_pool, winning_pool);
    if share > ctx.vault as u128 {
        return Err(ShipError::InsufficientEscrow);
    }
    let payout = share as u64;
    ctx.vault = ctx.vault - payout;
    ctx.bet.claimed = true;
    Ok(payout)
}

} // verus!
