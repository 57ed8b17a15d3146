//! Deposits and withdrawals against a vault: conservation, no partial
//! effect on failure, lock and authorization exclusivity, and the
//! overflow boundary.

use custody_ledger::errors::VaultError;
use custody_ledger::state::{Identity, Vault};
use custody_ledger::transfer::{deposit, withdraw, Deposit, Withdraw};

fn authority() -> Identity {
    Identity { hi: 0xA0A0, lo: 1 }
}

fn depositor() -> Identity {
    Identity { hi: 0xB0B0, lo: 2 }
}

fn vault_key() -> Identity {
    Identity { hi: 0xC0C0, lo: 3 }
}

fn deposit_accounts(balance: u64, locked: bool, user_balance: u64) -> Deposit {
    Deposit {
        user: depositor(),
        user_balance,
        vault: Vault { balance, locked, authority: authority() },
        vault_key: vault_key(),
    }
}

fn withdraw_accounts(balance: u64, locked: bool, caller: Identity, caller_balance: u64) -> Withdraw {
    Withdraw {
        vault_authority: caller,
        vault_authority_balance: caller_balance,
        vault: Vault { balance, locked, authority: authority() },
        vault_key: vault_key(),
    }
}

#[test]
fn deposit_conserves_funds() {
    let mut accounts = deposit_accounts(200, false, 75);
    let r = deposit(&mut accounts, 60);
    assert!(r.is_ok());
    assert_eq!(accounts.vault.balance, 260);
    assert_eq!(accounts.user_balance, 15);
    assert_eq!(
        accounts.vault.balance + accounts.user_balance,
        200 + 75
    );
}

#[test]
fn withdraw_conserves_funds() {
    let mut accounts = withdraw_accounts(200, false, authority(), 75);
    let r = withdraw(&mut accounts, 60);
    assert!(r.is_ok());
    assert_eq!(accounts.vault.balance, 140);
    assert_eq!(accounts.vault_authority_balance, 135);
    assert_eq!(
        accounts.vault.balance + accounts.vault_authority_balance,
        200 + 75
    );
}

#[test]
fn deposit_insufficient_balance_changes_nothing() {
    let before = deposit_accounts(10, false, 49);
    let mut accounts = before;
    let r = deposit(&mut accounts, 50);
    assert_eq!(r, Err(VaultError::InsufficientBalance));
    assert_eq!(accounts, before);
}

#[test]
fn deposit_overflow_changes_nothing() {
    let before = deposit_accounts(u64::MAX - 5, false, 100);
    let mut accounts = before;
    let r = deposit(&mut accounts, 6);
    assert_eq!(r, Err(VaultError::Overflow));
    assert_eq!(accounts, before);
}

#[test]
fn withdraw_insufficient_balance_changes_nothing() {
    let before = withdraw_accounts(49, false, authority(), 0);
    let mut accounts = before;
    let r = withdraw(&mut accounts, 50);
    assert_eq!(r, Err(VaultError::InsufficientBalance));
    assert_eq!(accounts, before);
}

#[test]
fn withdraw_overflow_changes_nothing() {
    let before = withdraw_accounts(100, false, authority(), u64::MAX - 5);
    let mut accounts = before;
    let r = withdraw(&mut accounts, 6);
    assert_eq!(r, Err(VaultError::Overflow));
    assert_eq!(accounts, before);
}

#[test]
fn locked_vault_refuses_deposit_regardless_of_amounts() {
    let before = deposit_accounts(100, true, 1000);
    let mut accounts = before;
    assert_eq!(deposit(&mut accounts, 0), Err(VaultError::VaultLocked));
    assert_eq!(deposit(&mut accounts, 50), Err(VaultError::VaultLocked));
    assert_eq!(deposit(&mut accounts, u64::MAX), Err(VaultError::VaultLocked));
    assert_eq!(accounts, before);
}

#[test]
fn locked_vault_refuses_withdraw_regardless_of_amounts() {
    let before = withdraw_accounts(100, true, authority(), 0);
    let mut accounts = before;
    assert_eq!(withdraw(&mut accounts, 0), Err(VaultError::VaultLocked));
    assert_eq!(withdraw(&mut accounts, 50), Err(VaultError::VaultLocked));
    assert_eq!(withdraw(&mut accounts, u64::MAX), Err(VaultError::VaultLocked));
    assert_eq!(accounts, before);
}

#[test]
fn wrong_caller_gets_not_authorized_before_any_balance_check() {
    // The balances would refuse the amount too, and the vault is even
    // locked; the caller still learns nothing beyond NotAuthorized.
    let before = withdraw_accounts(0, true, depositor(), u64::MAX);
    let mut accounts = before;
    let r = withdraw(&mut accounts, 1);
    assert_eq!(r, Err(VaultError::NotAuthorized));
    assert_eq!(accounts, before);
}

#[test]
fn wrong_caller_cannot_withdraw_from_healthy_vault() {
    let before = withdraw_accounts(1000, false, depositor(), 0);
    let mut accounts = before;
    let r = withdraw(&mut accounts, 1);
    assert_eq!(r, Err(VaultError::NotAuthorized));
    assert_eq!(accounts, before);
}

#[test]
fn deposit_to_exactly_max_balance_succeeds() {
    let mut accounts = deposit_accounts(u64::MAX - 50, false, 50);
    let r = deposit(&mut accounts, 50);
    assert!(r.is_ok());
    assert_eq!(accounts.vault.balance, u64::MAX);
    assert_eq!(accounts.user_balance, 0);
}

#[test]
fn deposit_one_past_max_balance_fails_with_overflow() {
    let before = deposit_accounts(u64::MAX - 50, false, 51);
    let mut accounts = before;
    let r = deposit(&mut accounts, 51);
    assert_eq!(r, Err(VaultError::Overflow));
    assert_eq!(accounts, before);
}

#[test]
fn withdraw_full_balance_then_one_more() {
    let mut accounts = withdraw_accounts(100, false, authority(), 0);
    let first = withdraw(&mut accounts, 100);
    assert!(first.is_ok());
    assert_eq!(accounts.vault.balance, 0);
    let second = withdraw(&mut accounts, 1);
    assert_eq!(second, Err(VaultError::InsufficientBalance));
    assert_eq!(accounts.vault.balance, 0);
    assert_eq!(accounts.vault_authority_balance, 100);
}

#[test]
fn deposit_into_empty_vault_reports_one_exact_event() {
    let mut accounts = deposit_accounts(0, false, 50);
    let r = deposit(&mut accounts, 50);
    assert_eq!(accounts.vault.balance, 50);
    let event = r.expect("deposit of 50 into an empty vault must succeed");
    assert_eq!(event.amount, 50);
    assert_eq!(event.user, depositor());
    assert_eq!(event.vault, vault_key());
}

#[test]
fn withdraw_reports_one_exact_event() {
    let mut accounts = withdraw_accounts(80, false, authority(), 5);
    let event = withdraw(&mut accounts, 30).expect("withdrawal of 30 from 80 must succeed");
    assert_eq!(event.amount, 30);
    assert_eq!(event.vault_authority, authority());
    assert_eq!(event.vault, vault_key());
}

#[test]
fn zero_amount_moves_are_allowed_through() {
    // Zero is not special-cased: it passes every check and moves nothing.
    let mut d = deposit_accounts(10, false, 0);
    assert!(deposit(&mut d, 0).is_ok());
    assert_eq!(d.vault.balance, 10);
    assert_eq!(d.user_balance, 0);

    let mut w = withdraw_accounts(0, false, authority(), 10);
    assert!(withdraw(&mut w, 0).is_ok());
    assert_eq!(w.vault.balance, 0);
    assert_eq!(w.vault_authority_balance, 10);
}

#[test]
fn success_keeps_lock_and_authority() {
    let mut d = deposit_accounts(1, false, 1);
    assert!(deposit(&mut d, 1).is_ok());
    assert!(!d.vault.locked);
    assert_eq!(d.vault.authority, authority());

    let mut w = withdraw_accounts(1, false, authority(), 1);
    assert!(withdraw(&mut w, 1).is_ok());
    assert!(!w.vault.locked);
    assert_eq!(w.vault.authority, authority());
}

#[test]
fn error_descriptions() {
    assert_eq!(VaultError::VaultLocked.describe(), "vault is locked");
    assert_eq!(VaultError::InsufficientBalance.describe(), "insufficient balance");
    assert_eq!(VaultError::Overflow.describe(), "balance overflow");
    assert_eq!(VaultError::NotAuthorized.describe(), "not authorized");
}
