use vstd::prelude::*;

verus! {

/// The error kinds an operation can surface. Each aborts the whole
/// invocation with no state change.
#[derive(Clone, Copy, Debug, PartialEq, Eq, Structural)]
pub enum StableTestError {
    /// The depositor's spendable balance is below the requested deposit.
    NoEnough,
    /// The oracle-reported price fails the validity check (negative, or the
    /// feed bytes are not a well-formed price account).
    UsdPriceWrong,
    /// A nested token-ledger step could not be applied: a burn larger than
    /// the holder's balance, or a mint that would overflow a 64-bit amount.
    LedgerFailed,
}

} // verus!
