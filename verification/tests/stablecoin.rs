use stable_test::error::StableTestError;
use stable_test::instructions::process_escrow;
use stable_test::instructions::process_mint_burn_token;
use stable_test::state::Initialize;
use stable_test::state::MintBurnToken;
use stable_test::state::SolPriceAccount;

fn fresh_accounts(user_lamports: u64) -> Initialize {
    Initialize {
        user_lamports,
        escrow_lamports: 0,
        stable_balance: 0,
        sol_price_account: SolPriceAccount {
            last_sol_price: 0,
            stable_total_supply: 0,
        },
    }
}

#[test]
fn escrow_mints_initial_supply() {
    let mut accounts = fresh_accounts(2_000_000_000);
    let r = process_escrow(&mut accounts, 1_000_000_000, 2_500_000_000);
    assert_eq!(r, Ok(()));
    assert_eq!(accounts.user_lamports, 1_000_000_000);
    assert_eq!(accounts.escrow_lamports, 1_000_000_000);
    assert_eq!(accounts.stable_balance, 25_000_000_000);
    assert_eq!(accounts.sol_price_account.last_sol_price, 2_500_000_000);
    assert_eq!(accounts.sol_price_account.stable_total_supply, 25_000_000_000);
}

#[test]
fn escrow_insufficient_funds_mutates_nothing() {
    let mut accounts = fresh_accounts(999);
    let before = accounts;
    let r = process_escrow(&mut accounts, 1_000, 2_500_000_000);
    assert_eq!(r, Err(StableTestError::NoEnough));
    assert_eq!(accounts, before);
}

#[test]
fn escrow_exact_balance_succeeds() {
    let mut accounts = fresh_accounts(1_000);
    let r = process_escrow(&mut accounts, 1_000, 100_000_000);
    assert_eq!(r, Ok(()));
    assert_eq!(accounts.user_lamports, 0);
    assert_eq!(accounts.stable_balance, 1_000);
}

#[test]
fn escrow_rejects_negative_price() {
    let mut accounts = fresh_accounts(1_000);
    let before = accounts;
    let r = process_escrow(&mut accounts, 500, -1);
    assert_eq!(r, Err(StableTestError::UsdPriceWrong));
    assert_eq!(accounts, before);
}

#[test]
fn escrow_supply_truncates() {
    // floor(333 * 3 / 10^8) == 0: a tiny deposit at a tiny price mints nothing.
    let mut accounts = fresh_accounts(10);
    let r = process_escrow(&mut accounts, 3, 333);
    assert_eq!(r, Ok(()));
    assert_eq!(accounts.stable_balance, 0);
    assert_eq!(accounts.sol_price_account.stable_total_supply, 0);
    assert_eq!(accounts.sol_price_account.last_sol_price, 333);
}

#[test]
fn escrow_product_overflow_fails() {
    let mut accounts = fresh_accounts(u64::MAX);
    let before = accounts;
    let r = process_escrow(&mut accounts, u64::MAX, i64::MAX);
    assert_eq!(r, Err(StableTestError::LedgerFailed));
    assert_eq!(accounts, before);
}

#[test]
fn escrow_balance_overflow_fails() {
    let mut accounts = Initialize {
        user_lamports: 1_000_000_000,
        escrow_lamports: 0,
        stable_balance: u64::MAX - 10,
        sol_price_account: SolPriceAccount {
            last_sol_price: 0,
            stable_total_supply: 0,
        },
    };
    let before = accounts;
    let r = process_escrow(&mut accounts, 1_000_000_000, 2_500_000_000);
    assert_eq!(r, Err(StableTestError::LedgerFailed));
    assert_eq!(accounts, before);
}

fn holder(balance: u64, last_price: u64) -> MintBurnToken {
    MintBurnToken {
        stable_balance: balance,
        sol_price_account: SolPriceAccount {
            last_sol_price: last_price,
            stable_total_supply: balance,
        },
    }
}

#[test]
fn rebase_mints_on_price_rise() {
    let mut accounts = holder(25_000_000_000, 2_500_000_000);
    let r = process_mint_burn_token(&mut accounts, 2_600_000_000);
    assert_eq!(r, Ok(()));
    assert_eq!(accounts.stable_balance, 25_100_000_000);
    assert_eq!(accounts.sol_price_account.last_sol_price, 2_600_000_000);
    assert_eq!(accounts.sol_price_account.stable_total_supply, 25_000_000_000);
}

#[test]
fn rebase_burns_on_price_fall() {
    let mut accounts = holder(25_000_000_000, 2_500_000_000);
    let r = process_mint_burn_token(&mut accounts, 2_400_000_000);
    assert_eq!(r, Ok(()));
    assert_eq!(accounts.stable_balance, 24_900_000_000);
    assert_eq!(accounts.sol_price_account.last_sol_price, 2_400_000_000);
}

#[test]
fn rebase_equal_price_changes_nothing() {
    let mut accounts = holder(25_000_000_000, 2_500_000_000);
    let before = accounts;
    let r = process_mint_burn_token(&mut accounts, 2_500_000_000);
    assert_eq!(r, Ok(()));
    assert_eq!(accounts, before);
}

#[test]
fn rebase_twice_unchanged_price_is_idempotent() {
    let mut accounts = holder(25_000_000_000, 2_500_000_000);
    let r1 = process_mint_burn_token(&mut accounts, 2_700_000_000);
    assert_eq!(r1, Ok(()));
    let after_first = accounts;
    let r2 = process_mint_burn_token(&mut accounts, 2_700_000_000);
    assert_eq!(r2, Ok(()));
    assert_eq!(accounts, after_first);
}

#[test]
fn rebase_burn_below_zero_fails() {
    let mut accounts = holder(5, 100);
    let before = accounts;
    let r = process_mint_burn_token(&mut accounts, 10);
    assert_eq!(r, Err(StableTestError::LedgerFailed));
    assert_eq!(accounts, before);
}

#[test]
fn rebase_mint_overflow_fails() {
    let mut accounts = holder(u64::MAX - 1, 10);
    let before = accounts;
    let r = process_mint_burn_token(&mut accounts, 100);
    assert_eq!(r, Err(StableTestError::LedgerFailed));
    assert_eq!(accounts, before);
}

#[test]
fn scenario_deposit_then_track_price() {
    // Deposit 1 unit at 10^9 scale while the oracle reports $25.00 at 10^8
    // scale: 25 * 10^9 tokens are minted. The two rebases then move the
    // balance by the price deltas.
    let mut accounts = fresh_accounts(1_000_000_000);
    let r = process_escrow(&mut accounts, 1_000_000_000, 2_500_000_000);
    assert_eq!(r, Ok(()));
    assert_eq!(accounts.sol_price_account.stable_total_supply, 25_000_000_000);

    let mut holder_accounts = MintBurnToken {
        stable_balance: accounts.stable_balance,
        sol_price_account: accounts.sol_price_account,
    };
    let r2 = process_mint_burn_token(&mut holder_accounts, 2_600_000_000);
    assert_eq!(r2, Ok(()));
    assert_eq!(holder_accounts.stable_balance, 25_000_000_000 + 100_000_000);

    let r3 = process_mint_burn_token(&mut holder_accounts, 2_400_000_000);
    assert_eq!(r3, Ok(()));
    assert_eq!(holder_accounts.stable_balance, 25_100_000_000 - 200_000_000);
    assert_eq!(holder_accounts.sol_price_account.last_sol_price, 2_400_000_000);
}
