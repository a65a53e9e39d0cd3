use vstd::prelude::*;

use crate::error::StableTestError;
use crate::state::Initialize;
use crate::state::MintBurnToken;
use crate::state::escrow_post;
use crate::state::escrow_result;
use crate::state::initial_supply;
use crate::state::rebase_step;

verus! {

/// After a successful escrow-and-mint the recorded supply is exactly
/// `floor(price * sol_amount / 10^8)`, the depositor's token balance grew
/// by exactly that amount, the deposit moved from the depositor into
/// escrow, and the record holds the reported price.
pub proof fn lemma_escrow_mints_initial_supply(pre: Initialize, sol_amount: u64, agg_price: i64)
    requires
        escrow_result(pre, sol_amount, agg_price) is Ok,
    ensures
        agg_price >= 0,
        ({
            let post = escrow_post(pre, sol_amount, agg_price);
            let supply = initial_supply(agg_price as u64, sol_amount);
            &&& post.sol_price_account.stable_total_supply == supply
            &&& post.stable_balance == pre.stable_balance + supply
            &&& post.sol_price_account.last_sol_price == agg_price as u64
            &&& post.user_lamports == pre.user_lamports - sol_amount
            &&& post.escrow_lamports == pre.escrow_lamports + sol_amount
        }),
{
}

/// A deposit above the depositor's spendable balance fails with
/// `NoEnough` and mutates no state.
pub proof fn lemma_escrow_insufficient_funds(pre: Initialize, sol_amount: u64, agg_price: i64)
    requires
        pre.user_lamports < sol_amount,
    ensures
        escrow_result(pre, sol_amount, agg_price) == Err::<(), _>(StableTestError::NoEnough),
        escrow_post(pre, sol_amount, agg_price) == pre,
{
}

/// Rebase idempotence: once a rebase at some price has produced a state,
/// a second rebase at the unchanged price succeeds and leaves the balance
/// and the record exactly as they are.
pub proof fn lemma_rebase_idempotent(pre: MintBurnToken, post: MintBurnToken, price: u64)
    requires
        rebase_step(pre, price) == Some(post),
    ensures
        rebase_step(post, price) == Some(post),
{
}

/// The state after a sequence of rebases, each reading the next price;
/// `None` as soon as one call aborts.
pub open spec fn rebase_sequence(start: MintBurnToken, prices: Seq<u64>) -> Option<MintBurnToken>
    decreases prices.len(),
{
    if prices.len() == 0 {
        Some(start)
    } else {
        match rebase_step(start, prices.first()) {
            Some(next) => rebase_sequence(next, prices.drop_first()),
            None => None,
        }
    }
}

/// The signed sum of the price movements `p_i - p_{i-1}` along a price
/// path whose previous price is `last`.
pub open spec fn signed_delta_sum(last: u64, prices: Seq<u64>) -> int
    decreases prices.len(),
{
    if prices.len() == 0 {
        0
    } else {
        (prices.first() - last) + signed_delta_sum(prices.first(), prices.drop_first())
    }
}

/// The signed sum of movements telescopes to the last price minus the
/// starting one.
pub proof fn lemma_signed_delta_sum_telescopes(last: u64, prices: Seq<u64>)
    requires
        prices.len() > 0,
    ensures
        signed_delta_sum(last, prices) == prices.last() - last,
    decreases prices.len(),
{
    if prices.len() == 1 {
        assert(signed_delta_sum(prices.first(), prices.drop_first()) == 0);
        assert(prices.last() == prices.first());
    } else {
        lemma_signed_delta_sum_telescopes(prices.first(), prices.drop_first());
        assert(prices.drop_first().last() == prices.last());
    }
}

/// After every call of a rebase sequence in which no call aborted, the
/// record holds the price just reported, the recorded initial supply is
/// untouched, and the holder's balance is the starting one plus the
/// signed sum of the price movements since the start.
pub proof fn lemma_rebase_sequence_tracks_price(
    start: MintBurnToken,
    end: MintBurnToken,
    prices: Seq<u64>,
)
    requires
        prices.len() > 0,
        rebase_sequence(start, prices) == Some(end),
    ensures
        end.sol_price_account.last_sol_price == prices.last(),
        end.sol_price_account.stable_total_supply == start.sol_price_account.stable_total_supply,
        end.stable_balance == start.stable_balance + signed_delta_sum(
            start.sol_price_account.last_sol_price,
            prices,
        ),
    decreases prices.len(),
{
    match rebase_step(start, prices.first()) {
        Some(next) => {
            if prices.len() == 1 {
                assert(rebase_sequence(next, prices.drop_first()) == Some(next));
                assert(signed_delta_sum(
                    next.sol_price_account.last_sol_price,
                    prices.drop_first(),
                ) == 0);
                assert(prices.last() == prices.first());
            } else {
                lemma_rebase_sequence_tracks_price(next, end, prices.drop_first());
                assert(prices.drop_first().last() == prices.last());
            }
        },
        None => {
            assert(false);
        },
    }
}

/// The full path of a deployment: an escrow-and-mint into empty token
/// holdings, then any all-successful sequence of rebases. The final
/// balance is the initially minted supply plus the signed sum of the
/// price movements since the price the escrow recorded.
pub proof fn lemma_escrow_then_rebases(
    pre: Initialize,
    sol_amount: u64,
    agg_price: i64,
    prices: Seq<u64>,
    end: MintBurnToken,
)
    requires
        pre.stable_balance == 0,
        escrow_result(pre, sol_amount, agg_price) is Ok,
        prices.len() > 0,
        rebase_sequence(
            MintBurnToken {
                stable_balance: escrow_post(pre, sol_amount, agg_price).stable_balance,
                sol_price_account: escrow_post(pre, sol_amount, agg_price).sol_price_account,
            },
            prices,
        ) == Some(end),
    ensures
        end.sol_price_account.last_sol_price == prices.last(),
        end.stable_balance == initial_supply(agg_price as u64, sol_amount) + signed_delta_sum(
            agg_price as u64,
            prices,
        ),
{
    let mid = MintBurnToken {
        stable_balance: escrow_post(pre, sol_amount, agg_price).stable_balance,
        sol_price_account: escrow_post(pre, sol_amount, agg_price).sol_price_account,
    };
    lemma_escrow_mints_initial_supply(pre, sol_amount, agg_price);
    lemma_rebase_sequence_tracks_price(mid, end, prices);
}

} // verus!
