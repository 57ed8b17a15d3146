//! The ledger account (vault) and the identities that act on it.

use vstd::prelude::*;

verus! {

/// An identity: a 256-bit principal key, held as two 128-bit halves.
///
/// The hosting environment resolves its own notion of a principal (for
/// example a public key) to one of these values; this library only ever
/// compares identities for equality.
#[derive(Clone, Copy, PartialEq, Eq, Structural, Debug)]
pub struct Identity {
    pub hi: u128,
    pub lo: u128,
}

/// A ledger account: the value-holding record managed by this library.
///
/// `balance` is the number of native currency units held; it is never
/// negative by construction and never changes except through a transfer
/// that has passed every validation check. `authority` is the only caller
/// permitted to withdraw, fixed when the account is created. While
/// `locked` is set, deposits and withdrawals both fail; the lock itself is
/// administered outside this library, which only reads it.
#[derive(Clone, Copy, PartialEq, Eq, Structural, Debug)]
pub struct Vault {
    pub balance: u64,
    pub locked: bool,
    pub authority: Identity,
}

} // verus!
