//! What is announced when a vault is created.

use vstd::prelude::*;
use crate::address::Address;
use crate::vault::Vault;

verus! {

/// The announcement of a new vault: who locked how much of which asset, and
/// until when.
#[derive(Clone, Copy, Debug, PartialEq, Eq)]
pub struct VaultInitialized {
    pub owner: Address,
    pub amount: u64,
    pub unlock_timestamp: i64,
    pub mint: Option<Address>,
}

impl VaultInitialized {
    /// The announcement of the vault with the given record.
    pub fn of(vault: &Vault) -> (r: VaultInitialized)
        ensures
            r.owner == vault.owner,
            r.amount == vault.amount,
            r.unlock_timestamp == vault.unlock_timestamp,
            r.mint == vault.mint,
    {
        VaultInitialized {
            owner: vault.owner,
            amount: vault.amount,
            unlock_timestamp: vault.unlock_timestamp,
            mint: vault.mint,
        }
    }
}

} // verus!
