//! The invariant checker: sufficiency and overflow validation, applied
//! strictly before any mutation.
//!
//! The transfer executor follows a check-then-act discipline: the move
//! primitive underneath is not transactional across arbitrary failure, so
//! correctness depends on never invoking it when a precondition is false.
//! These functions decide, without mutating anything, whether a move is
//! permitted, and report the first violated condition in a fixed order:
//! the lock, then sufficiency of the paying side, then overflow of the
//! receiving side.
//!
//! A zero amount is deliberately not special-cased: it passes the checks
//! whenever the vault is unlocked and moves nothing. Callers that want to
//! refuse empty moves must do so before calling in.

use vstd::prelude::*;
use crate::errors::VaultError;
use crate::state::Vault;

verus! {

/// The verdict of the deposit checks on `vault`, with `depositor_balance`
/// paying `amount`: `None` when the deposit may proceed, otherwise the
/// first violated condition.
pub open spec fn spec_check_deposit(vault: Vault, depositor_balance: u64, amount: u64) -> Option<VaultError> {
    if vault.locked {
        Some(VaultError::VaultLocked)
    } else if depositor_balance < amount {
        Some(VaultError::InsufficientBalance)
    } else if vault.balance + amount > u64::MAX {
        Some(VaultError::Overflow)
    } else {
        None
    }
}

/// The verdict of the withdrawal checks on `vault`, with
/// `authority_balance` receiving `amount`: `None` when the withdrawal may
/// proceed, otherwise the first violated condition. Authorization is not
/// decided here; see `guard::authorize`.
pub open spec fn spec_check_withdraw(vault: Vault, authority_balance: u64, amount: u64) -> Option<VaultError> {
    if vault.locked {
        Some(VaultError::VaultLocked)
    } else if vault.balance < amount {
        Some(VaultError::InsufficientBalance)
    } else if authority_balance + amount > u64::MAX {
        Some(VaultError::Overflow)
    } else {
        None
    }
}

/// Decides whether `amount` units may move from a depositor holding
/// `depositor_balance` into `vault`: the vault must not be locked, the
/// depositor must hold at least `amount`, and the vault's balance must not
/// overflow when credited.
pub fn check_deposit(vault: &Vault, depositor_balance: u64, amount: u64) -> (r: Result<(), VaultError>)
    ensures
        match r {
            Ok(_) => spec_check_deposit(*vault, depositor_balance, amount) is None,
            Err(e) => spec_check_deposit(*vault, depositor_balance, amount) == Some(e),
        },
{
    if vault.locked {
        Err(VaultError::VaultLocked)
    } else if depositor_balance < amount {
        Err(VaultError::InsufficientBalance)
    } else if amount > u64::MAX - vault.balance {
        Err(VaultError::Overflow)
    } else {
        Ok(())
    }
}

/// Decides whether `amount` units may move from `vault` to an authority
/// holding `authority_balance`: the vault must not be locked, must hold at
/// least `amount`, and the authority's balance must not overflow when
/// credited.
pub fn check_withdraw(vault: &Vault, authority_balance: u64, amount: u64) -> (r: Result<(), VaultError>)
    ensures
        match r {
            Ok(_) => spec_check_withdraw(*vault, authority_balance, amount) is None,
            Err(e) => spec_check_withdraw(*vault, authority_balance, amount) == Some(e),
        },
{
    if vault.locked {
        Err(VaultError::VaultLocked)
    } else if vault.balance < amount {
        Err(VaultError::InsufficientBalance)
    } else if amount > u64::MAX - authority_balance {
        Err(VaultError::Overflow)
    } else {
        Ok(())
    }
}

} // verus!
