//! Declaring the outcome of a market.

use crate::account::AccountId;
use crate::error::ShipError;
use crate::state::{Market, MarketOutcome, MarketStatus, MarketView};
use vstd::prelude::*;

verus! {

/// The accounts that resolving a market touches.
#[derive(Debug, PartialEq, Eq)]
pub struct ResolveMarket {
    pub market: Market,
    /// Who declares the outcome. Whoever admits the action has established
    /// that this is the market's oracle.
    pub oracle: AccountId,
}

/// What resolving a market touches, as a mathematical value: the market by its view,
/// the balance unbounded.
pub struct ResolveMarketView {
    pub market: MarketView,
    pub oracle: AccountId,
}

impl View for ResolveMarket {
    type V = ResolveMarketView;

    open spec fn view(&self) -> ResolveMarketView {
        ResolveMarketView { market: self.market@, oracle: self.oracle }
    }
}

/// What resolving a market does.
///
/// A market that is no longer open is refused first, whatever the outcome
/// given; then an outcome that is no side. Otherwise the market is resolved
/// to the outcome, for good. The time plays no part: the oracle may speak
/// before the deadline.
pub open spec fn resolve_market_rule(c: ResolveMarketView, outcome: MarketOutcome) -> Result<
    ResolveMarketView,
    ShipError,
> {
    if c.market.status != MarketStatus::Open {
        Err(ShipError::MarketNotOpen)
    } else if outcome == MarketOutcome::Pending {
        Err(ShipError::InvalidOutcome)
    } else {
        Ok(ResolveMarketView { market: c.market.resolved_to(outcome), ..c })
    }
}

/// Resolves the market to `outcome`.
pub fn resolve_market(ctx: &mut ResolveMarket, outcome: MarketOutcome) -> (r: Result<(), ShipError>)
    ensures
        match resolve_market_rule(old(ctx)@, outcome) {
            Ok(next) => r is Ok && final(ctx)@ == next,
            Err(e) => r == Err::<(), ShipError>(e) && *final(ctx) == *old(ctx),
        },
{
    if ctx.market.status != MarketStatus::Open {
        return Err(ShipError::MarketNotOpen);
    }
    if outcome == MarketOutcome::Pending {
        return Err(ShipError::InvalidOutcome);
    }
    ctx.market.status = MarketStatus::Resolved;
    ctx.market.outcome = outcome;
    Ok(())
}

} // verus!
