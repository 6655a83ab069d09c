//! A pari-mutuel prediction market on whether a pull request ships before a
//! deadline.
//!
//! Participants stake value on one of two sides, `Ship` or `Slip`. The stakes
//! are held in an escrow. Once an oracle has declared the outcome, each bet on
//! the winning side is paid its proportional share of everything staked,
//! rounded down; bets on the other side are paid nothing.

pub mod account;
pub mod betting;
pub mod creation;
pub mod error;
pub mod laws;
pub mod ledger;
pub mod payout;
pub mod resolution;
pub mod settlement;
pub mod solvency;
pub mod state;

pub use account::AccountId;
pub use betting::{place_bet, PlaceBet, PlaceBetView};
pub use creation::{create_market, CreateMarket, CreateMarketView};
pub use error::ShipError;
pub use resolution::{resolve_market, ResolveMarket, ResolveMarketView};
pub use settlement::{claim, Claim, ClaimView};
pub use state::{Bet, BetSide, Market, MarketOutcome, MarketStatus, MarketView, MAX_REPO_LEN, MIN_BET};
