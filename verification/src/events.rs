//! Transfer records emitted after successful operations.
//!
//! An event is produced exactly once per successful operation and never on
//! failure. It is write-once: external observers consume it, and this
//! library never reads one back. Delivering it (appending it to whatever
//! log or stream the hosting environment provides) is the caller's task.

use vstd::prelude::*;
use crate::state::Identity;

verus! {

/// The record of a successful deposit.
#[derive(Clone, Copy, PartialEq, Eq, Structural, Debug)]
pub struct DepositEvent {
    /// How many currency units moved into the vault.
    pub amount: u64,
    /// The depositor whose external balance paid for the deposit.
    pub user: Identity,
    /// The address of the vault that received the funds.
    pub vault: Identity,
}

/// The record of a successful withdrawal.
#[derive(Clone, Copy, PartialEq, Eq, Structural, Debug)]
pub struct WithdrawEvent {
    /// How many currency units left the vault.
    pub amount: u64,
    /// The authority whose external balance received the funds.
    pub vault_authority: Identity,
    /// The address of the vault that paid out the funds.
    pub vault: Identity,
}

} // verus!
