//! A minimal fungible-token ledger: accounts holding balances, with
//! transfer, mint, delegated spending (approve / transfer-from) and a
//! wrap/deposit flow backed by an external custody vault.
//!
//! Account identity is never chosen by the caller: every record address is
//! recomputed from a namespace tag and the owning keys (the program-derived
//! address pattern) and compared against what the caller supplied, so a
//! caller cannot substitute an unrelated record into an operation.

pub mod error;
pub mod identity;
pub mod store;
pub mod ledger;
pub mod laws;
