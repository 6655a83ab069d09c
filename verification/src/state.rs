//! The records of a market and of the bets placed on it.

use crate::account::AccountId;
use vstd::prelude::*;

verus! {

/// The smallest stake a bet may carry, in minimal units.
pub const MIN_BET: u64 = 10_000_000;

/// The longest repository name a market may carry, in bytes of UTF-8.
pub const MAX_REPO_LEN: usize = 100;

/// Whether a market still takes bets.
#[derive(Clone, Copy, Debug, PartialEq, Eq, Structural)]
pub enum MarketStatus {
    Open,
    Resolved,
}

/// What the oracle has declared of a market.
#[derive(Clone, Copy, Debug, PartialEq, Eq, Structural)]
pub enum MarketOutcome {
    Pending,
    Ship,
    Slip,
}

/// The side a bet is placed on.
#[derive(Clone, Copy, Debug, PartialEq, Eq, Structural)]
pub enum BetSide {
    Ship,
    Slip,
}

impl MarketOutcome {
    /// Whether a bet on `side` has won under this outcome. Nothing wins while
    /// the outcome is pending.
    pub open spec fn favours(self, side: BetSide) -> bool {
        match (self, side) {
            (MarketOutcome::Ship, BetSide::Ship) => true,
            (MarketOutcome::Slip, BetSide::Slip) => true,
            _ => false,
        }
    }
}

/// One wagering event: will the pull request `pr_number` of `repo` ship
/// before `deadline`?
#[derive(Debug, PartialEq, Eq)]
pub struct Market {
    /// The account that created the market. It holds no special rights.
    pub authority: AccountId,
    /// The repository, at most `MAX_REPO_LEN` bytes.
    pub repo: String,
    pub pr_number: u64,
    /// Bets are taken strictly before this time.
    pub deadline: i64,
    /// Everything staked on `Ship`.
    pub ship_pool: u64,
    /// Everything staked on `Slip`.
    pub slip_pool: u64,
    /// How many bets were placed.
    pub total_bettors: u32,
    pub status: MarketStatus,
    pub outcome: MarketOutcome,
}

impl Clone for Market {
    fn clone(&self) -> (copy: Self)
        ensures
            copy == *self,
    {
        Market {
            authority: self.authority,
            repo: self.repo.clone(),
            pr_number: self.pr_number,
            deadline: self.deadline,
            ship_pool: self.ship_pool,
            slip_pool: self.slip_pool,
            total_bettors: self.total_bettors,
            status: self.status,
            outcome: self.outcome,
        }
    }
}

/// A market as a mathematical value: the name as a sequence of characters,
/// the numbers unbounded.
pub struct MarketView {
    pub authority: AccountId,
    pub repo: Seq<char>,
    pub pr_number: nat,
    pub deadline: int,
    pub ship_pool: nat,
    pub slip_pool: nat,
    pub total_bettors: nat,
    pub status: MarketStatus,
    pub outcome: MarketOutcome,
}

impl View for Market {
    type V = MarketView;

    open spec fn view(&self) -> MarketView {
        MarketView {
            authority: self.authority,
            repo: self.repo@,
            pr_number: self.pr_number as nat,
            deadline: self.deadline as int,
            ship_pool: self.ship_pool as nat,
            slip_pool: self.slip_pool as nat,
            total_bettors: self.total_bettors as nat,
            status: self.status,
            outcome: self.outcome,
        }
    }
}

/// The length of a repository name: its bytes in UTF-8.
pub open spec fn repo_len(repo: Seq<char>) -> nat {
    vstd::utf8::encode_utf8(repo).len()
}

impl MarketView {
    /// A fresh market: open, nothing staked, nothing declared.
    pub open spec fn opened(authority: AccountId, repo: Seq<char>, pr_number: nat, deadline: int) -> MarketView {
        MarketView {
            authority,
            repo,
            pr_number,
            deadline,
            ship_pool: 0,
            slip_pool: 0,
            total_bettors: 0,
            status: MarketStatus::Open,
            outcome: MarketOutcome::Pending,
        }
    }

    /// A market is open exactly as long as its outcome is pending, and its
    /// name is within the limit.
    pub open spec fn wf(self) -> bool {
        &&& self.status == MarketStatus::Open <==> self.outcome == MarketOutcome::Pending
        &&& repo_len(self.repo) <= MAX_REPO_LEN
    }

    /// Whether every number fits the field that stores it.
    pub open spec fn fits(self) -> bool {
        &&& self.pr_number <= u64::MAX
        &&& i64::MIN <= self.deadline <= i64::MAX
        &&& self.ship_pool <= u64::MAX
        &&& self.slip_pool <= u64::MAX
        &&& self.total_bettors <= u32::MAX
    }

    /// Everything staked on `side`.
    pub open spec fn pool_of(self, side: BetSide) -> nat {
        match side {
            BetSide::Ship => self.ship_pool,
            BetSide::Slip => self.slip_pool,
        }
    }

    /// Everything staked on the market.
    pub open spec fn total_pool(self) -> nat {
        self.ship_pool + self.slip_pool
    }

    /// The market after one more bet of `amount` on `side`.
    pub open spec fn with_stake(self, side: BetSide, amount: nat) -> MarketView {
        match side {
            BetSide::Ship => MarketView {
                ship_pool: self.ship_pool + amount,
                total_bettors: self.total_bettors + 1,
                ..self
            },
            BetSide::Slip => MarketView {
                slip_pool: self.slip_pool + amount,
                total_bettors: self.total_bettors + 1,
                ..self
            },
        }
    }

    /// The market after the oracle has declared `outcome`.
    pub open spec fn resolved_to(self, outcome: MarketOutcome) -> MarketView {
        MarketView { status: MarketStatus::Resolved, outcome, ..self }
    }
}

/// One participant's stake on one side of a market.
#[derive(Clone, Copy, Debug, PartialEq, Eq)]
pub struct Bet {
    /// Who placed the bet.
    pub bettor: AccountId,
    /// The market the bet was placed on.
    pub market: AccountId,
    pub side: BetSide,
    /// The stake, at least `MIN_BET`.
    pub amount: u64,
    /// Whether the bet has been paid. Once true, it stays true.
    pub claimed: bool,
}

impl Bet {
    /// The bet as `bettor` places it on `market`: not yet paid.
    pub open spec fn placed(bettor: AccountId, market: AccountId, side: BetSide, amount: u64) -> Bet {
        Bet { bettor, market, side, amount, claimed: false }
    }

    /// The same bet, paid.
    pub open spec fn paid(self) -> Bet {
        Bet { claimed: true, ..self }
    }
}

} // verus!
