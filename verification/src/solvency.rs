//! The escrow of a market is always solvent.
//!
//! Whatever is done to a market, in whatever order, its book stays `sound`.
//! From that follow the two things that matter of the escrow: it has never
//! paid more than was staked, and it can always pay a winner that has not
//! been paid yet.

use crate::account::AccountId;
use crate::creation::{create_market_rule, CreateMarketView};
use crate::ledger::{paid_out, share_of, staked, winnings, Action, Book};
use crate::payout::lemma_share_rounds_down;
use crate::settlement::{claim_refusal, claim_rule};
use crate::state::{Bet, BetSide, MarketOutcome, MarketStatus, MarketView};
use vstd::prelude::*;

verus! {

/// One more bet adds its stake to the sum of its side, and to no other.
pub proof fn lemma_staked_push(bets: Seq<Bet>, bet: Bet, side: BetSide)
    ensures
        staked(bets.push(bet), side) == staked(bets, side) + if bet.side == side {
            bet.amount as nat
        } else {
            0
        },
{
    assert(bets.push(bet).drop_last() =~= bets);
}

/// Replacing a bet by one of the same side and stake leaves the sums as
/// they are.
pub proof fn lemma_staked_update(bets: Seq<Bet>, index: int, bet: Bet, side: BetSide)
    requires
        0 <= index < bets.len(),
        bet.side == bets[index].side,
        bet.amount == bets[index].amount,
    ensures
        staked(bets.update(index, bet), side) == staked(bets, side),
    decreases bets.len(),
{
    let after = bets.update(index, bet);
    if index == bets.len() - 1 {
        assert(after.drop_last() =~= bets.drop_last());
    } else {
        assert(after.drop_last() =~= bets.drop_last().update(index, bet));
        lemma_staked_update(bets.drop_last(), index, bet, side);
    }
}

/// The sum of a side is at least each stake on it.
pub proof fn lemma_staked_covers(bets: Seq<Bet>, index: int)
    requires
        0 <= index < bets.len(),
    ensures
        staked(bets, bets[index].side) >= bets[index].amount,
    decreases bets.len(),
{
    if index < bets.len() - 1 {
        lemma_staked_covers(bets.drop_last(), index);
    }
}

/// As long as no bet was paid, nothing was paid out.
pub proof fn lemma_paid_out_none(bets: Seq<Bet>, market: MarketView)
    requires
        forall|i: int| 0 <= i < bets.len() ==> !(#[trigger] bets[i]).claimed,
    ensures
        paid_out(bets, market) == 0,
    decreases bets.len(),
{
    if bets.len() > 0 {
        lemma_paid_out_none(bets.drop_last(), market);
    }
}

/// Paying a bet adds its share to what was paid out.
pub proof fn lemma_paid_out_update(bets: Seq<Bet>, index: int, market: MarketView)
    requires
        0 <= index < bets.len(),
        !bets[index].claimed,
    ensures
        paid_out(bets.update(index, bets[index].paid()), market) == paid_out(bets, market)
            + share_of(bets[index], market),
    decreases bets.len(),
{
    let after = bets.update(index, bets[index].paid());
    if index == bets.len() - 1 {
        assert(after.drop_last() =~= bets.drop_last());
    } else {
        assert(after.drop_last() =~= bets.drop_last().update(index, bets[index].paid()));
        lemma_paid_out_update(bets.drop_last(), index, market);
    }
}

/// Where only bets on `side` were paid, what was paid out is at most what
/// the bets on `side` earn together.
pub proof fn lemma_paid_within_winnings(bets: Seq<Bet>, market: MarketView, side: BetSide)
    requires
        forall|i: int| 0 <= i < bets.len() && (#[trigger] bets[i]).claimed ==> bets[i].side == side,
    ensures
        paid_out(bets, market) <= winnings(bets, market, side),
    decreases bets.len(),
{
    if bets.len() > 0 {
        lemma_paid_within_winnings(bets.drop_last(), market, side);
    }
}

/// The bets on one side never earn more together than was staked in all:
/// each share is rounded down.
pub proof fn lemma_winnings_within_total(bets: Seq<Bet>, market: MarketView, side: BetSide)
    requires
        market.pool_of(side) > 0,
    ensures
        winnings(bets, market, side) * market.pool_of(side) <= staked(bets, side)
            * market.total_pool(),
        staked(bets, side) == market.pool_of(side) ==> winnings(bets, market, side)
            <= market.total_pool(),
    decreases bets.len(),
{
    let pool = market.pool_of(side);
    let total = market.total_pool();
    if bets.len() == 0 {
        assert(winnings(bets, market, side) * pool == 0) by (nonlinear_arith)
            requires
                winnings(bets, market, side) == 0,
        ;
        assert(staked(bets, side) * total == 0) by (nonlinear_arith)
            requires
                staked(bets, side) == 0,
        ;
    } else {
        let rest = bets.drop_last();
        let last = bets.last();
        lemma_winnings_within_total(rest, market, side);
        if last.side == side {
            let share = share_of(last, market);
            let stake = last.amount as nat;
            lemma_share_rounds_down(stake, total, pool);
            assert((winnings(rest, market, side) + share) * pool <= (staked(rest, side) + stake)
                * total) by (nonlinear_arith)
                requires
                    winnings(rest, market, side) * pool <= staked(rest, side) * total,
                    share * pool <= stake * total,
            ;
        }
    }
    let earned = winnings(bets, market, side);
    if staked(bets, side) == pool {
        assert(earned <= total) by (nonlinear_arith)
            requires
                earned * pool <= pool * total,
                pool > 0,
        ;
    }
}

/// A market that was just opened is sound.
pub proof fn lemma_opened_sound(
    market_key: AccountId,
    c: CreateMarketView,
    repo: Seq<char>,
    pr_number: nat,
    deadline: int,
    now: int,
)
    requires
        create_market_rule(c, repo, pr_number, deadline, now) is Ok,
    ensures
        Book::opened(market_key, create_market_rule(c, repo, pr_number, deadline, now)->Ok_0).sound(),
{
}

/// Placing a bet keeps a sound book sound.
pub proof fn lemma_place_bet_sound(book: Book, bettor: AccountId, side: BetSide, amount: u64, now: int)
    requires
        book.sound(),
    ensures
        book.place_bet(bettor, side, amount, now).sound(),
{
    let after = book.place_bet(bettor, side, amount, now);
    if after != book {
        let bet = Bet::placed(bettor, book.market_key, side, amount);
        lemma_staked_push(book.bets, bet, BetSide::Ship);
        lemma_staked_push(book.bets, bet, BetSide::Slip);
        lemma_paid_out_none(book.bets, book.market);
        lemma_paid_out_none(after.bets, after.market);
    }
}

/// Resolving the market keeps a sound book sound.
pub proof fn lemma_resolve_sound(book: Book, oracle: AccountId, outcome: MarketOutcome)
    requires
        book.sound(),
    ensures
        book.resolve(oracle, outcome).sound(),
{
    let after = book.resolve(oracle, outcome);
    if after != book {
        lemma_paid_out_none(book.bets, book.market);
        lemma_paid_out_none(after.bets, after.market);
    }
}

/// Paying a bet keeps a sound book sound.
pub proof fn lemma_claim_sound(book: Book, index: int, bettor: AccountId)
    requires
        book.sound(),
    ensures
        book.claim(index, bettor).sound(),
{
    let after = book.claim(index, bettor);
    if after != book {
        let bet = book.bets[index];
        lemma_staked_update(book.bets, index, bet.paid(), BetSide::Ship);
        lemma_staked_update(book.bets, index, bet.paid(), BetSide::Slip);
        lemma_paid_out_update(book.bets, index, book.market);
    }
}

/// Every action keeps a sound book sound.
pub proof fn lemma_apply_sound(book: Book, action: Action)
    requires
        book.sound(),
    ensures
        book.apply(action).sound(),
{
    match action {
        Action::PlaceBet { bettor, side, amount, now } => {
            lemma_place_bet_sound(book, bettor, side, amount, now);
        },
        Action::ResolveMarket { oracle, outcome } => {
            lemma_resolve_sound(book, oracle, outcome);
        },
        Action::Claim { index, bettor } => {
            lemma_claim_sound(book, index, bettor);
        },
    }
}

/// Solvency: after any sequence of bets, resolutions and claims on a sound
/// market, and at every point of it, the book is sound, the escrow holds
/// exactly what was staked less what was paid, and what was paid is at most
/// what was staked.
pub proof fn theorem_solvency(book: Book, actions: Seq<Action>)
    requires
        book.sound(),
    ensures
        book.run(actions).sound(),
        book.run(actions).solvent(),
        forall|n: int|
            0 <= n <= actions.len() ==> (#[trigger] book.run(actions.take(n))).sound() && book.run(
                actions.take(n),
            ).solvent(),
    decreases actions.len(),
{
    if actions.len() > 0 {
        theorem_solvency(book, actions.drop_last());
        lemma_apply_sound(book.run(actions.drop_last()), actions.last());
    }
    assert forall|n: int| 0 <= n <= actions.len() implies (#[trigger] book.run(
        actions.take(n),
    )).sound() && book.run(actions.take(n)).solvent() by {
        if n == actions.len() {
            assert(actions.take(n) =~= actions);
        } else {
            assert(actions.drop_last().take(n) =~= actions.take(n));
        }
    }
}

/// On a sound market, a bet that has won and was not paid yet is paid when
/// its bettor claims it: something was staked on its side, and the escrow
/// covers its share. The one thing that can stand in the way is that the
/// two pools together no longer fit a `u64`.
pub proof fn theorem_winner_is_paid(book: Book, index: int)
    requires
        book.sound(),
        0 <= index < book.bets.len(),
        book.market.status == MarketStatus::Resolved,
        book.market.outcome.favours(book.bets[index].side),
        !book.bets[index].claimed,
    ensures
        claim_refusal(book.claim_view(index, book.bets[index].bettor)) is None,
        claim_rule(book.claim_view(index, book.bets[index].bettor)) is Ok,
        share_of(book.bets[index], book.market) <= book.vault,
        book.market.total_pool() <= u64::MAX ==> {
            let after = book.claim(index, book.bets[index].bettor);
            &&& after.bets[index] == book.bets[index].paid()
            &&& after.vault + share_of(book.bets[index], book.market) == book.vault
        },
{
    let bet = book.bets[index];
    let side = bet.side;
    let after = book.bets.update(index, bet.paid());
    lemma_staked_covers(book.bets, index);
    lemma_staked_update(book.bets, index, bet.paid(), side);
    lemma_paid_out_update(book.bets, index, book.market);
    lemma_paid_within_winnings(after, book.market, side);
    lemma_winnings_within_total(after, book.market, side);
}

/// Solvency, from the start: a market that was opened and then went through
/// any sequence of actions is sound, and its escrow holds exactly what was
/// staked less what was paid.
pub proof fn theorem_solvency_from_creation(
    market_key: AccountId,
    c: CreateMarketView,
    repo: Seq<char>,
    pr_number: nat,
    deadline: int,
    now: int,
    actions: Seq<Action>,
)
    requires
        create_market_rule(c, repo, pr_number, deadline, now) is Ok,
    ensures
        Book::opened(market_key, create_market_rule(c, repo, pr_number, deadline, now)->Ok_0).run(
            actions,
        ).sound(),
        Book::opened(market_key, create_market_rule(c, repo, pr_number, deadline, now)->Ok_0).run(
            actions,
        ).solvent(),
{
    lemma_opened_sound(market_key, c, repo, pr_number, deadline, now);
    theorem_solvency(
        Book::opened(market_key, create_market_rule(c, repo, pr_number, deadline, now)->Ok_0),
        actions,
    );
}

/// One action takes a book to one that it precedes.
pub proof fn lemma_apply_precedes(book: Book, action: Action)
    ensures
        book.precedes(book.apply(action)),
{
}

/// Nothing is undone: whatever is done to a market, the pools do not go
/// down, a resolved market stays as it was resolved, no bet is lost or
/// altered, and a paid bet stays paid.
pub proof fn theorem_nothing_is_undone(book: Book, actions: Seq<Action>)
    ensures
        book.precedes(book.run(actions)),
    decreases actions.len(),
{
    if actions.len() > 0 {
        theorem_nothing_is_undone(book, actions.drop_last());
        lemma_apply_precedes(book.run(actions.drop_last()), actions.last());
    }
}

/// No double payout, whatever happens in between: a bet that was paid is
/// not paid again after any sequence of actions, whoever claims it.
pub proof fn theorem_paid_once(book: Book, index: int, actions: Seq<Action>, bettor: AccountId)
    requires
        0 <= index < book.bets.len(),
        book.bets[index].claimed,
    ensures
        book.run(actions).bets[index].claimed,
        book.run(actions).claim(index, bettor) == book.run(actions),
{
    theorem_nothing_is_undone(book, actions);
}

} // verus!
