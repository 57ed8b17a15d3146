//! The transfer executor: the only code that moves a balance.
//!
//! Each operation is a single indivisible unit of work against one vault:
//! validate fully, then mutate, then hand the caller the event to emit.
//! Either the full amount moves and the event is produced, or nothing
//! changes at all — a failed operation leaves every field exactly as it
//! was and produces no event.
//!
//! The counterparty's side of a move (the depositor's or the authority's
//! external balance) is held in the account bundle and updated together
//! with the vault, so that a successful move conserves the total funds of
//! the closed system.

use vstd::prelude::*;
use crate::checks::{check_deposit, check_withdraw, spec_check_deposit, spec_check_withdraw};
use crate::errors::VaultError;
use crate::events::{DepositEvent, WithdrawEvent};
use crate::guard::authorize;
use crate::state::{Identity, Vault};

verus! {

/// The accounts a deposit touches: the depositor (any identity, paying
/// from `user_balance`), the vault being credited, and the vault's
/// resolved address `vault_key` (address derivation is the hosting
/// environment's concern; this library receives the address ready-made,
/// and only records it in the event).
#[derive(Clone, Copy, PartialEq, Eq, Structural, Debug)]
pub struct Deposit {
    pub user: Identity,
    pub user_balance: u64,
    pub vault: Vault,
    pub vault_key: Identity,
}

/// The accounts a withdrawal touches: the caller claiming to be the
/// vault's authority (receiving into `vault_authority_balance`), the
/// vault being debited, and the vault's resolved address.
#[derive(Clone, Copy, PartialEq, Eq, Structural, Debug)]
pub struct Withdraw {
    pub vault_authority: Identity,
    pub vault_authority_balance: u64,
    pub vault: Vault,
    pub vault_key: Identity,
}

/// Why a deposit of `amount` into `accounts` fails, or `None` when it
/// succeeds: the vault's lock, then the depositor's sufficiency, then
/// overflow of the vault's balance.
pub open spec fn deposit_error(accounts: Deposit, amount: u64) -> Option<VaultError> {
    spec_check_deposit(accounts.vault, accounts.user_balance, amount)
}

/// The accounts after a successful deposit of `amount`: the full amount
/// has moved from the depositor's balance to the vault's, and nothing
/// else has changed.
pub open spec fn deposit_post(accounts: Deposit, amount: u64) -> Deposit
    recommends
        deposit_error(accounts, amount) is None,
{
    Deposit {
        user_balance: (accounts.user_balance - amount) as u64,
        vault: Vault { balance: (accounts.vault.balance + amount) as u64, ..accounts.vault },
        ..accounts
    }
}

/// Why a withdrawal of `amount` from `accounts` fails, or `None` when it
/// succeeds. Authorization is decided first, before any balance check:
/// a caller other than the vault's authority learns nothing beyond
/// `NotAuthorized`. Then come the vault's lock, the vault's sufficiency,
/// and overflow of the authority's receiving balance.
pub open spec fn withdraw_error(accounts: Withdraw, amount: u64) -> Option<VaultError> {
    if accounts.vault_authority != accounts.vault.authority {
        Some(VaultError::NotAuthorized)
    } else {
        spec_check_withdraw(accounts.vault, accounts.vault_authority_balance, amount)
    }
}

/// The accounts after a successful withdrawal of `amount`: the full
/// amount has moved from the vault's balance to the authority's, and
/// nothing else has changed.
pub open spec fn withdraw_post(accounts: Withdraw, amount: u64) -> Withdraw
    recommends
        withdraw_error(accounts, amount) is None,
{
    Withdraw {
        vault_authority_balance: (accounts.vault_authority_balance + amount) as u64,
        vault: Vault { balance: (accounts.vault.balance - amount) as u64, ..accounts.vault },
        ..accounts
    }
}

/// Moves `amount` currency units from the depositor's external balance
/// into the vault.
///
/// Succeeds exactly when the vault is not locked, the depositor holds at
/// least `amount`, and the vault's balance does not overflow when
/// credited; then the full amount has moved and the returned event — to
/// be emitted exactly once by the caller — records the amount, the
/// depositor and the vault address. On failure every field is exactly as
/// it was and no event exists to emit.
pub fn deposit(accounts: &mut Deposit, amount: u64) -> (r: Result<DepositEvent, VaultError>)
    ensures
        match r {
            Ok(ev) => {
                &&& deposit_error(*old(accounts), amount) is None
                &&& *final(accounts) == deposit_post(*old(accounts), amount)
                &&& ev == (DepositEvent {
                    amount,
                    user: old(accounts).user,
                    vault: old(accounts).vault_key,
                })
            },
            Err(e) => {
                &&& deposit_error(*old(accounts), amount) == Some(e)
                &&& *final(accounts) == *old(accounts)
            },
        },
{
    match check_deposit(&accounts.vault, accounts.user_balance, amount) {
        Err(e) => Err(e),
        Ok(()) => {
            accounts.user_balance = accounts.user_balance - amount;
            accounts.vault.balance = accounts.vault.balance + amount;
            Ok(DepositEvent { amount, user: accounts.user, vault: accounts.vault_key })
        },
    }
}

/// Moves `amount` currency units from the vault to its authority's
/// external balance.
///
/// Succeeds exactly when the caller is the vault's authority, the vault
/// is not locked, the vault holds at least `amount`, and the authority's
/// balance does not overflow when credited; then the decrement and the
/// increment have happened as one indivisible unit and the returned event
/// — to be emitted exactly once by the caller — records the amount, the
/// authority and the vault address. On failure every field is exactly as
/// it was and no event exists to emit.
pub fn withdraw(accounts: &mut Withdraw, amount: u64) -> (r: Result<WithdrawEvent, VaultError>)
    ensures
        match r {
            Ok(ev) => {
                &&& withdraw_error(*old(accounts), amount) is None
                &&& *final(accounts) == withdraw_post(*old(accounts), amount)
                &&& ev == (WithdrawEvent {
                    amount,
                    vault_authority: old(accounts).vault_authority,
                    vault: old(accounts).vault_key,
                })
            },
            Err(e) => {
                &&& withdraw_error(*old(accounts), amount) == Some(e)
                &&& *final(accounts) == *old(accounts)
            },
        },
{
    if let Err(e) = authorize(&accounts.vault, accounts.vault_authority) {
        return Err(e);
    }
    match check_withdraw(&accounts.vault, accounts.vault_authority_balance, amount) {
        Err(e) => Err(e),
        Ok(()) => {
            accounts.vault.balance = accounts.vault.balance - amount;
            accounts.vault_authority_balance = accounts.vault_authority_balance + amount;
            Ok(WithdrawEvent {
                amount,
                vault_authority: accounts.vault_authority,
                vault: accounts.vault_key,
            })
        },
    }
}

/// Conservation, deposit side: a successful deposit moves exactly
/// `amount` from the depositor's balance to the vault's, so the total
/// funds of the closed system are unchanged.
pub proof fn lemma_deposit_conservation(accounts: Deposit, amount: u64)
    requires
        deposit_error(accounts, amount) is None,
    ensures
        deposit_post(accounts, amount).vault.balance == accounts.vault.balance + amount,
        deposit_post(accounts, amount).user_balance == accounts.user_balance - amount,
        deposit_post(accounts, amount).vault.balance + deposit_post(accounts, amount).user_balance
            == accounts.vault.balance + accounts.user_balance,
{
}

/// Conservation, withdrawal side: a successful withdrawal moves exactly
/// `amount` from the vault's balance to the authority's, so the total
/// funds of the closed system are unchanged.
pub proof fn lemma_withdraw_conservation(accounts: Withdraw, amount: u64)
    requires
        withdraw_error(accounts, amount) is None,
    ensures
        withdraw_post(accounts, amount).vault.balance == accounts.vault.balance - amount,
        withdraw_post(accounts, amount).vault_authority_balance
            == accounts.vault_authority_balance + amount,
        withdraw_post(accounts, amount).vault.balance
            + withdraw_post(accounts, amount).vault_authority_balance
            == accounts.vault.balance + accounts.vault_authority_balance,
{
}

/// Neither a deposit nor a withdrawal changes the lock or the authority:
/// even on success, only balances move.
pub proof fn lemma_lock_and_authority_immutable(d: Deposit, w: Withdraw, amount: u64)
    ensures
        deposit_post(d, amount).vault.locked == d.vault.locked,
        deposit_post(d, amount).vault.authority == d.vault.authority,
        withdraw_post(w, amount).vault.locked == w.vault.locked,
        withdraw_post(w, amount).vault.authority == w.vault.authority,
{
}

/// Lock exclusivity: on a locked vault, a deposit fails with
/// `VaultLocked` regardless of amount or balances, and so does a
/// withdrawal by the vault's own authority. (A withdrawal by any other
/// caller fails too, but with `NotAuthorized`, which is decided first.)
pub proof fn lemma_lock_exclusivity(d: Deposit, w: Withdraw, amount_d: u64, amount_w: u64)
    requires
        d.vault.locked,
        w.vault.locked,
        w.vault_authority == w.vault.authority,
    ensures
        deposit_error(d, amount_d) == Some(VaultError::VaultLocked),
        withdraw_error(w, amount_w) == Some(VaultError::VaultLocked),
{
}

/// Authorization exclusivity: a withdrawal by any caller other than the
/// vault's authority fails with `NotAuthorized`, whatever the amount, the
/// balances or the lock — no balance check runs for such a caller.
pub proof fn lemma_authorization_exclusivity(w: Withdraw, amount: u64)
    requires
        w.vault_authority != w.vault.authority,
    ensures
        withdraw_error(w, amount) == Some(VaultError::NotAuthorized),
{
}

/// Overflow boundary: with the lock and sufficiency checks out of the
/// way, a deposit fails with `Overflow` exactly when the credited balance
/// would exceed the largest representable value — a sum of exactly that
/// value still succeeds.
pub proof fn lemma_deposit_overflow_boundary(accounts: Deposit, amount: u64)
    requires
        !accounts.vault.locked,
        accounts.user_balance >= amount,
    ensures
        accounts.vault.balance + amount > u64::MAX
            ==> deposit_error(accounts, amount) == Some(VaultError::Overflow),
        accounts.vault.balance + amount <= u64::MAX
            ==> deposit_error(accounts, amount) is None,
        accounts.vault.balance + amount == u64::MAX
            ==> deposit_post(accounts, amount).vault.balance == u64::MAX,
{
}

} // verus!
