use vstd::prelude::*;

use crate::error::StableTestError;
use crate::oracle::pyth_aggregate_price;
use crate::oracle::pyth_aggregate_price_of;
use crate::state::Initialize;
use crate::state::MintBurnToken;
use crate::state::PRICE_SCALE;
use crate::state::SolPriceAccount;
use crate::state::escrow_post;
use crate::state::escrow_result;
use crate::state::rebase_post;
use crate::state::rebase_result;

verus! {

/// Escrow-and-mint with the oracle's aggregate price injected as a plain
/// signed integer (the oracle's native representation).
///
/// Rejects a deposit above the depositor's spendable balance, then a
/// negative price, then any ledger step that does not fit in 64-bit
/// amounts; otherwise it moves the deposit into escrow, mints
/// `floor(price * sol_amount / 10^8)` tokens to the depositor, and
/// overwrites the price record with the price and that supply. Any failure
/// leaves every account untouched.
pub fn process_escrow(
    accounts: &mut Initialize,
    sol_amount: u64,
    agg_price: i64,
) -> (r: Result<(), StableTestError>)
    ensures
        r == escrow_result(*old(accounts), sol_amount, agg_price),
        *final(accounts) == escrow_post(*old(accounts), sol_amount, agg_price),
{
    if accounts.user_lamports < sol_amount {
        return Err(StableTestError::NoEnough);
    }
    if agg_price < 0 {
        return Err(StableTestError::UsdPriceWrong);
    }
    let price: u64 = agg_price as u64;

    let product: u64 = match price.checked_mul(sol_amount) {
        Some(p) => p,
        None => {
            return Err(StableTestError::LedgerFailed);
        },
    };
    let init_stable_supply: u64 = product / PRICE_SCALE;

    let escrow_lamports: u64 = match accounts.escrow_lamports.checked_add(sol_amount) {
        Some(v) => v,
        None => {
            return Err(StableTestError::LedgerFailed);
        },
    };
    let stable_balance: u64 = match accounts.stable_balance.checked_add(init_stable_supply) {
        Some(v) => v,
        None => {
            return Err(StableTestError::LedgerFailed);
        },
    };

    accounts.user_lamports = accounts.user_lamports - sol_amount;
    accounts.escrow_lamports = escrow_lamports;
    accounts.stable_balance = stable_balance;
    accounts.sol_price_account = SolPriceAccount {
        last_sol_price: price,
        stable_total_supply: init_stable_supply,
    };
    Ok(())
}

/// Rebase with the current price injected as a plain integer.
///
/// Burns `last_sol_price - current_price` tokens when the price fell,
/// mints `current_price - last_sol_price` when it rose, does nothing to
/// the balance when it is unchanged, and records the new price. A burn
/// below zero or a mint above `u64::MAX` aborts with the propagated
/// ledger failure and leaves every account untouched.
pub fn process_mint_burn_token(
    accounts: &mut MintBurnToken,
    current_price: u64,
) -> (r: Result<(), StableTestError>)
    ensures
        r == rebase_result(*old(accounts), current_price),
        *final(accounts) == rebase_post(*old(accounts), current_price),
        r is Ok ==> final(accounts).stable_balance - final(accounts).sol_price_account.last_sol_price
            == old(accounts).stable_balance - old(accounts).sol_price_account.last_sol_price,
{
    let last_sol_price: u64 = accounts.sol_price_account.last_sol_price;

    if current_price < last_sol_price {
        let burn_amount: u64 = last_sol_price - current_price;
        let burned: u64 = match accounts.stable_balance.checked_sub(burn_amount) {
            Some(v) => v,
            None => {
                return Err(StableTestError::LedgerFailed);
            },
        };
        accounts.stable_balance = burned;
    } else if current_price > last_sol_price {
        let mint_amount: u64 = current_price - last_sol_price;
        let minted: u64 = match accounts.stable_balance.checked_add(mint_amount) {
            Some(v) => v,
            None => {
                return Err(StableTestError::LedgerFailed);
            },
        };
        accounts.stable_balance = minted;
    }

    accounts.sol_price_account.last_sol_price = current_price;
    Ok(())
}

/// Escrow-and-mint reading the price from a pyth price-account image,
/// given as the 64-bit words of the account's data.
///
/// The depositor's balance is checked before the feed is read; a feed that
/// does not parse as a price account counts as an invalid price. Otherwise
/// the outcome is exactly that of [`process_escrow`] at the parsed price.
pub fn process_escrow_with_feed(
    accounts: &mut Initialize,
    sol_amount: u64,
    oracle_words: &[u64],
) -> (r: Result<(), StableTestError>)
    ensures
        old(accounts).user_lamports < sol_amount ==> r == Err::<(), _>(StableTestError::NoEnough)
            && *final(accounts) == *old(accounts),
        old(accounts).user_lamports >= sol_amount ==> match pyth_aggregate_price_of(
            oracle_words@,
        ) {
            None => r == Err::<(), _>(StableTestError::UsdPriceWrong) && *final(accounts) == *old(
                accounts,
            ),
            Some(p) => r == escrow_result(*old(accounts), sol_amount, p) && *final(accounts)
                == escrow_post(*old(accounts), sol_amount, p),
        },
{
    if accounts.user_lamports < sol_amount {
        return Err(StableTestError::NoEnough);
    }
    match pyth_aggregate_price(oracle_words) {
        None => Err(StableTestError::UsdPriceWrong),
        Some(p) => process_escrow(accounts, sol_amount, p),
    }
}

/// Rebase reading the price from a pyth price-account image, given as the
/// 64-bit words of the account's data.
///
/// A feed that does not parse, or reports a negative aggregate, counts as
/// an invalid price. Otherwise the outcome is exactly that of
/// [`process_mint_burn_token`] at the parsed price.
pub fn process_mint_burn_token_with_feed(
    accounts: &mut MintBurnToken,
    oracle_words: &[u64],
) -> (r: Result<(), StableTestError>)
    ensures
        match pyth_aggregate_price_of(oracle_words@) {
            None => r == Err::<(), _>(StableTestError::UsdPriceWrong) && *final(accounts) == *old(
                accounts,
            ),
            Some(p) => if p < 0 {
                r == Err::<(), _>(StableTestError::UsdPriceWrong) && *final(accounts) == *old(
                    accounts,
                )
            } else {
                r == rebase_result(*old(accounts), p as u64) && *final(accounts) == rebase_post(
                    *old(accounts),
                    p as u64,
                )
            },
        },
{
    match pyth_aggregate_price(oracle_words) {
        None => Err(StableTestError::UsdPriceWrong),
        Some(p) => {
            if p < 0 {
                Err(StableTestError::UsdPriceWrong)
            } else {
                process_mint_burn_token(accounts, p as u64)
            }
        },
    }
}

} // verus!
