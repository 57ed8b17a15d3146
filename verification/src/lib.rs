//! A custody ledger engine: a single value-holding account (a vault) that
//! accepts deposits from any depositor, permits withdrawals only by its
//! designated authority, and can be administratively locked to freeze all
//! movement. Every balance move is validated (lock, sufficiency, overflow)
//! strictly before any mutation, so a failed operation changes nothing.
//!
//! A small peripheral subsystem maintains per-post reaction counters with an
//! underflow guard.
//!
//! The hosting environment is expected to serialize operations against the
//! same account and to carry out the external effects (the actual funds
//! transfer between runtime accounts, event delivery to observers) only as
//! this library's contracts direct.

pub mod checks;
pub mod errors;
pub mod events;
pub mod guard;
pub mod reaction;
pub mod state;
pub mod transfer;
