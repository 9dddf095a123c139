use vstd::prelude::*;

verus! {

/// Why a call into the drop contract was refused. A refused call changes nothing.
#[derive(Debug, Clone, Copy, PartialEq, Eq, Structural)]
pub enum DropError {
    /// A native drop of zero, or a claim of a token drop that holds no tokens.
    ZeroTokens,
    /// Less was attached than a native drop costs.
    InsufficientDeposit,
    /// A token drop was not paid with exactly its overhead.
    WrongDeposit,
    /// The key already has a drop.
    DuplicateKey,
    /// The key has no drop: never created, or already claimed.
    MissingDrop,
    /// A token top-up named a native drop.
    NotFtDrop,
    /// A token top-up came from another contract than the drop's.
    WrongTokenContract,
    /// A token top-up would take the amount past `u128::MAX`.
    Overflow,
    /// The new account was reported as not created; the drop stays claimable.
    AccountNotCreated,
}

} // verus!
