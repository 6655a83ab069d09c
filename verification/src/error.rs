//! The reasons for which an action on a market is refused.

use vstd::prelude::*;

verus! {

/// Why an action was refused. A refused action changes nothing.
#[derive(Clone, Copy, Debug, PartialEq, Eq, Structural)]
pub enum ShipError {
    /// The repository name is longer than `MAX_REPO_LEN` bytes.
    RepoTooLong,
    /// The deadline is not in the future (creation), or has been reached (betting).
    DeadlinePassed,
    /// The market has already been resolved.
    MarketNotOpen,
    /// The stake is below `MIN_BET`.
    BetTooSmall,
    /// The bet has already been paid.
    AlreadyClaimed,
    /// The market has not been resolved yet.
    MarketNotResolved,
    /// The bet is on the side that lost.
    BetLost,
    /// The outcome is not a side, or nothing was staked on the winning side.
    InvalidOutcome,
    /// The bet is not the claimant's, or belongs to another market.
    Unauthorized,
    /// The escrow holds less than the payout.
    InsufficientEscrow,
}

impl ShipError {
    /// The message that goes with each error.
    pub open spec fn text(self) -> Seq<char> {
        match self {
            ShipError::RepoTooLong => "Repo name too long"@,
            ShipError::DeadlinePassed => "Deadline has passed"@,
            ShipError::MarketNotOpen => "Market is not open"@,
            ShipError::BetTooSmall => "Bet too small (min 0.01 SOL)"@,
            ShipError::AlreadyClaimed => "Already claimed"@,
            ShipError::MarketNotResolved => "Market not resolved"@,
            ShipError::BetLost => "Bet lost"@,
            ShipError::InvalidOutcome => "Invalid outcome"@,
            ShipError::Unauthorized => "Bet does not belong to this bettor and market"@,
            ShipError::InsufficientEscrow => "Escrow cannot cover the payout"@,
        }
    }

    /// A short description of the error, for people.
    pub fn message(&self) -> (s: &'static str)
        ensures
            s@ == self.text(),
    {
        match self {
            ShipError::RepoTooLong => "Repo name too long",
            ShipError::DeadlinePassed => "Deadline has passed",
            ShipError::MarketNotOpen => "Market is not open",
            ShipError::BetTooSmall => "Bet too small (min 0.01 SOL)",
            ShipError::AlreadyClaimed => "Already claimed",
            ShipError::MarketNotResolved => "Market not resolved",
            ShipError::BetLost => "Bet lost",
            ShipError::InvalidOutcome => "Invalid outcome",
            ShipError::Unauthorized => "Bet does not belong to this bettor and market",
            ShipError::InsufficientEscrow => "Escrow cannot cover the payout",
        }
    }
}

} // verus!
