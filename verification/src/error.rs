//! The error taxonomy of the ledger: every operation fails synchronously
//! with one of these kinds, before any record mutation, and never panics.

use vstd::prelude::*;

verus! {

/// The typed failures an operation can surface to its caller.
#[derive(Clone, Copy, Debug, PartialEq, Eq, Structural)]
pub enum ERC20Error {
    /// A transfer would drive a balance negative.
    InsufficientBalance,
    /// A delegated transfer asks for more than the remaining allowance.
    InsufficientApprove,
    /// A supplied identifier does not match its expected derivation, or the
    /// caller does not own the account it claims to act for.
    WrongAuthority,
    /// A deposit's external asset type or vault address does not match the
    /// token's configured binding.
    WrongWrappedToken,
    /// A record was created twice (double initialization).
    AlreadyExists,
    /// A record the operation needs is missing from the store.
    NotFound,
}

} // verus!
