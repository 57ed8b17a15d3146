//! Failure kinds for the ledger operations and the reaction counter.
//!
//! Every failure is detected strictly before any mutation and is surfaced
//! to the caller verbatim; no error is recovered silently and nothing is
//! retried. A failed operation is therefore always a no-op.

use vstd::prelude::*;

verus! {

/// Why a deposit or a withdrawal was refused.
#[derive(Clone, Copy, PartialEq, Eq, Structural, Debug)]
pub enum VaultError {
    /// The vault's administrative lock is set; all movement is frozen.
    VaultLocked,
    /// The paying side does not hold the requested amount.
    InsufficientBalance,
    /// Adding the amount to the receiving side would overflow its balance.
    Overflow,
    /// The caller of a withdrawal is not the vault's authority.
    NotAuthorized,
}

/// Why removing a reaction was refused.
#[derive(Clone, Copy, PartialEq, Eq, Structural, Debug)]
pub enum ReactionError {
    /// The caller is not the author of the reaction.
    NotAuthorized,
    /// The parent's like counter is already zero.
    MinLikesReached,
    /// The parent's dislike counter is already zero.
    MinDislikesReached,
}

impl VaultError {
    /// A short human-readable description of the failure.
    pub fn describe(&self) -> (r: &'static str)
        ensures
            r@ == match *self {
                VaultError::VaultLocked => "vault is locked"@,
                VaultError::InsufficientBalance => "insufficient balance"@,
                VaultError::Overflow => "balance overflow"@,
                VaultError::NotAuthorized => "not authorized"@,
            },
    {
        match *self {
            VaultError::VaultLocked => "vault is locked",
            VaultError::InsufficientBalance => "insufficient balance",
            VaultError::Overflow => "balance overflow",
            VaultError::NotAuthorized => "not authorized",
        }
    }
}

impl ReactionError {
    /// A short human-readable description of the failure.
    pub fn describe(&self) -> (r: &'static str)
        ensures
            r@ == match *self {
                ReactionError::NotAuthorized => "not authorized"@,
                ReactionError::MinLikesReached => "no likes to remove"@,
                ReactionError::MinDislikesReached => "no dislikes to remove"@,
            },
    {
        match *self {
            ReactionError::NotAuthorized => "not authorized",
            ReactionError::MinLikesReached => "no likes to remove",
            ReactionError::MinDislikesReached => "no dislikes to remove",
        }
    }
}

} // verus!
