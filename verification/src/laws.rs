//! What follows from the rules of the four actions, one action at a time.

use crate::betting::{place_bet_rule, PlaceBetView};
use crate::error::ShipError;
use crate::resolution::{resolve_market_rule, ResolveMarketView};
use crate::settlement::{claim_refusal, claim_rule, ClaimView};
use crate::state::{BetSide, MarketOutcome, MarketStatus, MIN_BET};
use vstd::prelude::*;

verus! {

/// No double payout: once a claim has succeeded, the same claim on what it
/// left behind is refused as already claimed.
pub proof fn law_no_double_payout(c: ClaimView)
    requires
        claim_rule(c) is Ok,
    ensures
        claim_rule(claim_rule(c)->Ok_0.0) == Err::<(ClaimView, nat), ShipError>(
            ShipError::AlreadyClaimed,
        ),
{
}

/// A bet that was paid is never paid again, whoever claims it and whatever
/// the escrow holds.
pub proof fn law_paid_bet_is_refused(c: ClaimView)
    requires
        c.bet.claimed,
    ensures
        claim_rule(c) is Err,
        c.market.status == MarketStatus::Resolved && c.bet.bettor == c.bettor && c.bet.market
            == c.market_key ==> claim_rule(c) == Err::<(ClaimView, nat), ShipError>(
            ShipError::AlreadyClaimed,
        ),
{
}

/// No early claim: on a market that is not resolved, every claim is refused
/// for that reason, whatever else holds of it.
pub proof fn law_no_claim_before_resolution(c: ClaimView)
    requires
        c.market.status != MarketStatus::Resolved,
    ensures
        claim_rule(c) == Err::<(ClaimView, nat), ShipError>(ShipError::MarketNotResolved),
{
}

/// Resolution is not gated by time: an open market is resolved to either
/// side whatever its deadline, and the rule takes no time to compare it
/// with.
pub proof fn law_resolution_ignores_deadline(c: ResolveMarketView, outcome: MarketOutcome)
    requires
        c.market.status == MarketStatus::Open,
        outcome != MarketOutcome::Pending,
    ensures
        resolve_market_rule(c, outcome) is Ok,
        resolve_market_rule(c, outcome)->Ok_0.market.status == MarketStatus::Resolved,
        resolve_market_rule(c, outcome)->Ok_0.market.outcome == outcome,
        resolve_market_rule(c, outcome)->Ok_0.market.deadline == c.market.deadline,
{
}

/// Resolution is final: on a resolved market every further resolution is
/// refused as not open, whatever outcome it brings.
pub proof fn law_resolution_is_final(c: ResolveMarketView, outcome: MarketOutcome)
    requires
        c.market.status == MarketStatus::Resolved,
    ensures
        resolve_market_rule(c, outcome) == Err::<ResolveMarketView, ShipError>(
            ShipError::MarketNotOpen,
        ),
{
}

/// A resolved market takes no more bets.
pub proof fn law_no_bet_after_resolution(c: PlaceBetView, side: BetSide, amount: u64, now: int)
    requires
        c.market.status == MarketStatus::Resolved,
    ensures
        place_bet_rule(c, side, amount, now) is Err,
        amount >= MIN_BET ==> place_bet_rule(c, side, amount, now) == Err::<
            PlaceBetView,
            ShipError,
        >(ShipError::MarketNotOpen),
{
}

/// Where nothing was staked on the side that won, no claim is paid. A bet on
/// the winning side is refused for the outcome, a bet on the other side as
/// lost, unless the claim is refused before for whose it is or for having
/// been paid. No amount is computed, so nothing is divided by zero.
pub proof fn law_empty_winning_pool_pays_nothing(c: ClaimView)
    requires
        c.market.status == MarketStatus::Resolved,
        forall|side: BetSide| c.market.outcome.favours(side) ==> c.market.pool_of(side) == 0,
    ensures
        claim_rule(c) is Err,
        claim_refusal(c) is Some,
        c.bet.bettor == c.bettor && c.bet.market == c.market_key && !c.bet.claimed ==> claim_rule(c)
            == Err::<(ClaimView, nat), ShipError>(
            if c.market.outcome.favours(c.bet.side) {
                ShipError::InvalidOutcome
            } else {
                ShipError::BetLost
            },
        ),
{
}

/// A losing bet is never paid, and its stake is not returned.
pub proof fn law_losing_bet_is_refused(c: ClaimView)
    requires
        !c.market.outcome.favours(c.bet.side),
    ensures
        claim_rule(c) is Err,
{
}

/// A payout is the bet's share of everything staked, rounded down, and the
/// escrow loses exactly that.
pub proof fn law_payout_is_the_share(c: ClaimView)
    requires
        claim_rule(c) is Ok,
    ensures
        claim_rule(c)->Ok_0.1 == (c.bet.amount * (c.market.ship_pool + c.market.slip_pool))
            / c.market.pool_of(c.bet.side) as int,
        claim_rule(c)->Ok_0.0.vault + claim_rule(c)->Ok_0.1 == c.vault,
        claim_rule(c)->Ok_0.0.market == c.market,
{
}

} // verus!
