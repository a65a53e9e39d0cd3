//! A minimal algorithmic-stablecoin mechanism: a depositor escrows the native
//! asset, the program mints a derived token whose initial supply follows an
//! oracle-reported price, and a rebase operation later mints or burns the
//! supply to track subsequent price movements.
//!
//! The verified core works on a plain model of the on-chain accounts each
//! operation touches; the host runtime's plumbing (signatures, account
//! loading, cross-program calls) stays outside it.

pub mod address;
pub mod error;
pub mod instructions;
pub mod laws;
pub mod oracle;
pub mod state;
