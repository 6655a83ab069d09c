//! Opening a market.

use crate::account::AccountId;
use crate::error::ShipError;
use crate::state::{repo_len, Market, MarketOutcome, MarketStatus, MarketView, MAX_REPO_LEN};
use vstd::prelude::*;

verus! {

/// The accounts that opening a market touches.
#[derive(Debug, PartialEq, Eq)]
pub struct CreateMarket {
    /// The record that will hold the new market.
    pub market: Market,
    /// The balance of the escrow that goes with the market.
    pub vault: u64,
    /// Who opens the market.
    pub authority: AccountId,
}

/// What opening a market touches, as a mathematical value: the market by its view,
/// the balance unbounded.
pub struct CreateMarketView {
    pub market: MarketView,
    pub vault: nat,
    pub authority: AccountId,
}

impl View for CreateMarket {
    type V = CreateMarketView;

    open spec fn view(&self) -> CreateMarketView {
        CreateMarketView { market: self.market@, vault: self.vault as nat, authority: self.authority }
    }
}

/// What opening a market does.
///
/// A name of more than `MAX_REPO_LEN` bytes is refused first, then a deadline
/// that is not in the future. Otherwise the record holds a fresh market of
/// the given authority, and its escrow is empty.
pub open spec fn create_market_rule(
    c: CreateMarketView,
    repo: Seq<char>,
    pr_number: nat,
    deadline: int,
    now: int,
) -> Result<CreateMarketView, ShipError> {
    if repo_len(repo) > MAX_REPO_LEN {
        Err(ShipError::RepoTooLong)
    } else if deadline <= now {
        Err(ShipError::DeadlinePassed)
    } else {
        Ok(
            CreateMarketView {
                market: MarketView::opened(c.authority, repo, pr_number, deadline),
                vault: 0,
                authority: c.authority,
            },
        )
    }
}

/// Opens a market on whether pull request `pr_number` of `repo` ships before
/// `deadline`, at time `now`.
///
/// That no market exists yet under the same name and number is for the
/// storage that keeps the records to see to.
pub fn create_market(
    ctx: &mut CreateMarket,
    repo: String,
    pr_number: u64,
    deadline: i64,
    now: i64,
) -> (r: Result<(), ShipError>)
    ensures
        match create_market_rule(old(ctx)@, repo@, pr_number as nat, deadline as int, now as int) {
            Ok(next) => r is Ok && final(ctx)@ == next,
            Err(e) => r == Err::<(), ShipError>(e) && *final(ctx) == *old(ctx),
        },
{
    if repo.as_str().as_bytes().len() > MAX_REPO_LEN {
        return Err(ShipError::RepoTooLong);
    }
    if deadline <= now {
        return Err(ShipError::DeadlinePassed);
    }
    ctx.market = Market {
        authority: ctx.authority,
        repo,
        pr_number,
        deadline,
        ship_pool: 0,
        slip_pool: 0,
        total_bettors: 0,
        status: MarketStatus::Open,
        outcome: MarketOutcome::Pending,
    };
    ctx.vault = 0;
    Ok(())
}

} // verus!
