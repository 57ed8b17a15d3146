//! The authorization guard: caller identity against the vault's authority.
//!
//! Only withdrawals are guarded; a deposit needs no authorization against
//! the vault, because the depositor proves control over the funds being
//! debited to the external transfer primitive, not to this library. The
//! guard assumes the caller's identity was already authenticated (the
//! request was signed by it); the hosting environment supplies that, and
//! this library only compares identities.

use vstd::prelude::*;
use crate::errors::VaultError;
use crate::state::{Identity, Vault};

verus! {

/// Grants the privileged operations on `vault` exactly to its authority:
/// returns `Ok` when `caller` is the vault's authority, and
/// `NotAuthorized` for every other caller.
pub fn authorize(vault: &Vault, caller: Identity) -> (r: Result<(), VaultError>)
    ensures
        r is Ok <==> caller == vault.authority,
        r is Err ==> r == Err::<(), VaultError>(VaultError::NotAuthorized),
{
    if caller == vault.authority {
        Ok(())
    } else {
        Err(VaultError::NotAuthorized)
    }
}

} // verus!
