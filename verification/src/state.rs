use vstd::prelude::*;

verus! {

/// The oracle price is a fixed-point number scaled by 10^8.
pub const PRICE_SCALE: u64 = 100_000_000;

/// The one persisted record of this program: the price at which the supply
/// was last adjusted, and the supply minted by the initial escrow.
///
/// `stable_total_supply` mirrors the amount minted by the escrow operation;
/// the token ledger itself stays authoritative for balances.
#[derive(Clone, Copy, Debug, PartialEq, Eq, Structural)]
pub struct SolPriceAccount {
    pub last_sol_price: u64,
    pub stable_total_supply: u64,
}

/// The accounts the escrow-and-mint operation reads and writes, as plain
/// balances: the depositor's native balance, the escrow's native balance,
/// the depositor's token balance, and the persisted price record.
#[derive(Clone, Copy, Debug, PartialEq, Eq, Structural)]
pub struct Initialize {
    /// The depositor's spendable native balance.
    pub user_lamports: u64,
    /// The native balance held by the escrow account.
    pub escrow_lamports: u64,
    /// The depositor's balance on the token ledger.
    pub stable_balance: u64,
    /// The persisted price record, created by this operation.
    pub sol_price_account: SolPriceAccount,
}

/// The accounts the rebase operation reads and writes: the holder's token
/// balance and the persisted price record.
#[derive(Clone, Copy, Debug, PartialEq, Eq, Structural)]
pub struct MintBurnToken {
    /// The holder's balance on the token ledger.
    pub stable_balance: u64,
    /// The persisted price record; must already exist.
    pub sol_price_account: SolPriceAccount,
}

/// The supply minted for a deposit: `floor(price * amount / 10^8)`.
pub open spec fn initial_supply(price: u64, sol_amount: u64) -> int {
    (price * sol_amount) / (PRICE_SCALE as int)
}

/// Whether every ledger step of a successful escrow fits in 64-bit amounts:
/// the product feeding the supply formula, the escrow's grown native
/// balance, and the depositor's grown token balance.
pub open spec fn escrow_fits(pre: Initialize, sol_amount: u64, price: u64) -> bool {
    &&& price * sol_amount <= u64::MAX
    &&& pre.escrow_lamports + sol_amount <= u64::MAX
    &&& pre.stable_balance + initial_supply(price, sol_amount) <= u64::MAX
}

/// The state after a successful escrow-and-mint: the deposit moved into
/// escrow, the initial supply minted to the depositor, and the price record
/// overwritten with the current price and that supply.
pub open spec fn escrow_applied(pre: Initialize, sol_amount: u64, price: u64) -> Initialize {
    Initialize {
        user_lamports: (pre.user_lamports - sol_amount) as u64,
        escrow_lamports: (pre.escrow_lamports + sol_amount) as u64,
        stable_balance: (pre.stable_balance + initial_supply(price, sol_amount)) as u64,
        sol_price_account: SolPriceAccount {
            last_sol_price: price,
            stable_total_supply: initial_supply(price, sol_amount) as u64,
        },
    }
}

/// The holder's balance after a rebase to `price`, before clamping: the old
/// balance plus the signed price movement since the last rebase.
pub open spec fn rebase_balance(pre: MintBurnToken, price: u64) -> int {
    pre.stable_balance + price - pre.sol_price_account.last_sol_price
}

/// Whether the rebase delta can be applied on the ledger: a burn never
/// exceeds the holder's balance, and a mint never overflows it.
pub open spec fn rebase_fits(pre: MintBurnToken, price: u64) -> bool {
    0 <= rebase_balance(pre, price) <= u64::MAX
}

/// The result of escrow-and-mint, one decision per line: insufficient
/// funds are rejected first, then a negative oracle price, then a ledger
/// step that does not fit in 64-bit amounts; everything else succeeds.
pub open spec fn escrow_result(
    pre: Initialize,
    sol_amount: u64,
    agg_price: i64,
) -> Result<(), crate::error::StableTestError> {
    if pre.user_lamports < sol_amount {
        Err(crate::error::StableTestError::NoEnough)
    } else if agg_price < 0 {
        Err(crate::error::StableTestError::UsdPriceWrong)
    } else if !escrow_fits(pre, sol_amount, agg_price as u64) {
        Err(crate::error::StableTestError::LedgerFailed)
    } else {
        Ok(())
    }
}

/// The state after escrow-and-mint: changed only on success, since any
/// failure aborts the whole operation.
pub open spec fn escrow_post(pre: Initialize, sol_amount: u64, agg_price: i64) -> Initialize {
    if escrow_result(pre, sol_amount, agg_price) is Ok {
        escrow_applied(pre, sol_amount, agg_price as u64)
    } else {
        pre
    }
}

/// One rebase transition: `Some` of the adjusted state when the delta fits
/// on the ledger, `None` when the operation aborts. A successful rebase
/// moves the holder's balance by the price delta and records the new price;
/// the recorded initial supply is untouched.
pub open spec fn rebase_step(pre: MintBurnToken, price: u64) -> Option<MintBurnToken> {
    if rebase_fits(pre, price) {
        Some(MintBurnToken {
            stable_balance: rebase_balance(pre, price) as u64,
            sol_price_account: SolPriceAccount {
                last_sol_price: price,
                stable_total_supply: pre.sol_price_account.stable_total_supply,
            },
        })
    } else {
        None
    }
}

/// The result of a rebase: it succeeds exactly when the delta fits on the
/// ledger, and otherwise aborts with the propagated ledger failure.
pub open spec fn rebase_result(
    pre: MintBurnToken,
    price: u64,
) -> Result<(), crate::error::StableTestError> {
    if rebase_fits(pre, price) {
        Ok(())
    } else {
        Err(crate::error::StableTestError::LedgerFailed)
    }
}

/// The state after a rebase: changed only on success.
pub open spec fn rebase_post(pre: MintBurnToken, price: u64) -> MintBurnToken {
    match rebase_step(pre, price) {
        Some(post) => post,
        None => pre,
    }
}

} // verus!
