//! A market, its escrow and all its bets, as one value, and why the escrow
//! always covers what it owes.
//!
//! The functions that act on a market see one bet at a time. What holds of
//! the escrow depends on all bets together, so this module follows a market
//! through any sequence of actions. Nothing here runs: it is the model that
//! the contracts of the four actions are read against.

use crate::account::AccountId;
use crate::betting::{place_bet_fits, place_bet_rule, PlaceBetView};
use crate::creation::CreateMarketView;
use crate::payout::payout_share;
use crate::resolution::{resolve_market_rule, ResolveMarketView};
use crate::settlement::{claim_fits, claim_rule, ClaimView};
use crate::state::{Bet, BetSide, MarketOutcome, MarketStatus, MarketView, MIN_BET};
use vstd::prelude::*;

verus! {

/// What `bet` earns on `market` if it is paid.
pub open spec fn share_of(bet: Bet, market: MarketView) -> nat {
    payout_share(bet.amount as nat, market.total_pool(), market.pool_of(bet.side))
}

/// The stakes of the bets on `side`, added up.
pub open spec fn staked(bets: Seq<Bet>, side: BetSide) -> nat
    decreases bets.len(),
{
    if bets.len() == 0 {
        0
    } else {
        staked(bets.drop_last(), side) + if bets.last().side == side {
            bets.last().amount as nat
        } else {
            0
        }
    }
}

/// What the bets that were paid have earned, added up.
pub open spec fn paid_out(bets: Seq<Bet>, market: MarketView) -> nat
    decreases bets.len(),
{
    if bets.len() == 0 {
        0
    } else {
        paid_out(bets.drop_last(), market) + if bets.last().claimed {
            share_of(bets.last(), market)
        } else {
            0
        }
    }
}

/// What the bets on `side` earn if all of them are paid, added up.
pub open spec fn winnings(bets: Seq<Bet>, market: MarketView, side: BetSide) -> nat
    decreases bets.len(),
{
    if bets.len() == 0 {
        0
    } else {
        winnings(bets.drop_last(), market, side) + if bets.last().side == side {
            share_of(bets.last(), market)
        } else {
            0
        }
    }
}

/// One action on a market.
pub enum Action {
    /// `bettor` stakes `amount` on `side` at time `now`.
    PlaceBet { bettor: AccountId, side: BetSide, amount: u64, now: int },
    /// `oracle` declares `outcome`.
    ResolveMarket { oracle: AccountId, outcome: MarketOutcome },
    /// `bettor` claims the bet at `index`.
    Claim { index: int, bettor: AccountId },
}

/// A market with its escrow and every bet placed on it, in the order of
/// placing.
pub struct Book {
    pub market_key: AccountId,
    pub market: MarketView,
    pub vault: nat,
    pub bets: Seq<Bet>,
}

impl Book {
    /// The book of a market that was just opened.
    pub open spec fn opened(market_key: AccountId, created: CreateMarketView) -> Book {
        Book { market_key, market: created.market, vault: created.vault, bets: Seq::empty() }
    }

    /// Whether `bettor` has a bet on this market.
    pub open spec fn has_bet_of(self, bettor: AccountId) -> bool {
        exists|i: int| 0 <= i < self.bets.len() && (#[trigger] self.bets[i]).bettor == bettor
    }

    /// What `place_bet` sees when `bettor` comes to this market.
    pub open spec fn place_bet_view(self, bettor: AccountId) -> PlaceBetView {
        PlaceBetView {
            market_key: self.market_key,
            market: self.market,
            vault: self.vault,
            bet: arbitrary(),
            bettor,
        }
    }

    /// What `resolve_market` sees when `oracle` comes to this market.
    pub open spec fn resolve_view(self, oracle: AccountId) -> ResolveMarketView {
        ResolveMarketView { market: self.market, oracle }
    }

    /// What `claim` sees when `bettor` claims the bet at `index`.
    pub open spec fn claim_view(self, index: int, bettor: AccountId) -> ClaimView {
        ClaimView {
            market_key: self.market_key,
            market: self.market,
            vault: self.vault,
            bet: self.bets[index],
            bettor,
        }
    }

    /// The book after `bettor` has tried to place a bet.
    ///
    /// The records are kept under the bettor's address, one for each market,
    /// so a second bet of the same bettor finds its place taken and changes
    /// nothing. Nor does a bet that is refused, or one under which a number
    /// would run over.
    pub open spec fn place_bet(self, bettor: AccountId, side: BetSide, amount: u64, now: int) -> Book {
        let c = self.place_bet_view(bettor);
        match place_bet_rule(c, side, amount, now) {
            Ok(next) => if !self.has_bet_of(bettor) && place_bet_fits(c, side, amount, now) {
                Book { market: next.market, vault: next.vault, bets: self.bets.push(next.bet), ..self }
            } else {
                self
            },
            Err(_) => self,
        }
    }

    /// The book after `oracle` has tried to resolve the market.
    pub open spec fn resolve(self, oracle: AccountId, outcome: MarketOutcome) -> Book {
        match resolve_market_rule(self.resolve_view(oracle), outcome) {
            Ok(next) => Book { market: next.market, ..self },
            Err(_) => self,
        }
    }

    /// The book after `bettor` has tried to claim the bet at `index`.
    pub open spec fn claim(self, index: int, bettor: AccountId) -> Book {
        if 0 <= index < self.bets.len() {
            let c = self.claim_view(index, bettor);
            match claim_rule(c) {
                Ok((next, _)) => if claim_fits(c) {
                    Book { vault: next.vault, bets: self.bets.update(index, next.bet), ..self }
                } else {
                    self
                },
                Err(_) => self,
            }
        } else {
            self
        }
    }

    /// The book after one action.
    pub open spec fn apply(self, action: Action) -> Book {
        match action {
            Action::PlaceBet { bettor, side, amount, now } => self.place_bet(bettor, side, amount, now),
            Action::ResolveMarket { oracle, outcome } => self.resolve(oracle, outcome),
            Action::Claim { index, bettor } => self.claim(index, bettor),
        }
    }

    /// The book after a sequence of actions, the first one first.
    pub open spec fn run(self, actions: Seq<Action>) -> Book
        decreases actions.len(),
    {
        if actions.len() == 0 {
            self
        } else {
            self.run(actions.drop_last()).apply(actions.last())
        }
    }

    /// Whether `later` may be what has become of this book.
    ///
    /// What names the market stays. The pools and the count of bets do not
    /// go down, and once the market is resolved its record stays as it is.
    /// Bets are only added; a bet keeps its bettor, side and stake, and once
    /// paid it stays paid.
    pub open spec fn precedes(self, later: Book) -> bool {
        &&& later.market_key == self.market_key
        &&& later.market.authority == self.market.authority
        &&& later.market.repo == self.market.repo
        &&& later.market.pr_number == self.market.pr_number
        &&& later.market.deadline == self.market.deadline
        &&& later.market.ship_pool >= self.market.ship_pool
        &&& later.market.slip_pool >= self.market.slip_pool
        &&& later.market.total_bettors >= self.market.total_bettors
        &&& self.market.status == MarketStatus::Resolved ==> later.market == self.market
        &&& later.bets.len() >= self.bets.len()
        &&& forall|i: int|
            0 <= i < self.bets.len() ==> {
                &&& (#[trigger] later.bets[i]).bettor == self.bets[i].bettor
                &&& later.bets[i].market == self.bets[i].market
                &&& later.bets[i].side == self.bets[i].side
                &&& later.bets[i].amount == self.bets[i].amount
                &&& self.bets[i].claimed ==> later.bets[i].claimed
            }
    }

    /// What has been paid out of the escrow so far.
    pub open spec fn paid(self) -> nat {
        paid_out(self.bets, self.market)
    }

    /// Whether the escrow holds exactly what was staked less what was paid,
    /// which is then at most what was staked.
    pub open spec fn solvent(self) -> bool {
        &&& self.paid() <= self.market.total_pool()
        &&& self.vault == self.market.total_pool() - self.paid()
    }

    /// What holds of a market at every point of its life.
    ///
    /// The market is well formed, and it has counted its bets. Each pool is
    /// the sum of the stakes on its side, and every stake is at least
    /// `MIN_BET`.
    /// Every bet is of this market, and no two are of the same bettor. Only
    /// bets that have won were paid. The escrow holds what was staked less
    /// what was paid.
    pub open spec fn sound(self) -> bool {
        &&& self.market.wf()
        &&& self.market.total_bettors == self.bets.len()
        &&& staked(self.bets, BetSide::Ship) == self.market.ship_pool
        &&& staked(self.bets, BetSide::Slip) == self.market.slip_pool
        &&& forall|i: int|
            0 <= i < self.bets.len() ==> {
                &&& (#[trigger] self.bets[i]).amount >= MIN_BET
                &&& self.bets[i].market == self.market_key
                &&& self.bets[i].claimed ==> self.market.status == MarketStatus::Resolved
                    && self.market.outcome.favours(self.bets[i].side)
            }
        &&& forall|i: int, j: int|
            0 <= i < j < self.bets.len() ==> (#[trigger] self.bets[i]).bettor != (
            #[trigger] self.bets[j]).bettor
        &&& self.vault + self.paid() == self.market.total_pool()
    }
}

} // verus!
