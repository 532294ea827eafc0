//! Locking an amount of a fungible token.

use vstd::prelude::*;
use crate::address::Address;
use crate::error::{LedgerError, TimelockBaseWalletErrorCode};
use crate::ledger::{HoldingKey, Ledger};
use crate::lifecycle::{lock_address, lock_refusal, locked, MintAccount};
use crate::vault::Vault;

verus! {

/// The accounts of a token lock: the owner, who pays from the holding
/// account they have for the asset, and the asset as they present it.
#[derive(Clone, Copy, Debug, PartialEq, Eq)]
pub struct InitializeSplLock {
    pub signer: Address,
    pub mint: MintAccount,
}

impl InitializeSplLock {
    /// Locks `amount` of the asset from the signer's holding account until
    /// `unlock_timestamp`, and returns the address of the new vault, which
    /// takes the amount into custody. The lock takes effect exactly when
    /// nothing refuses it; a refused lock changes nothing.
    pub fn handler(&self, ledger: &mut Ledger, amount: u64, unlock_timestamp: i64) -> (r: Result<
        Address,
        TimelockBaseWalletErrorCode,
    >)
        requires
            old(ledger).wf(),
        ensures
            final(ledger).wf(),
            match r {
                Ok(a) => {
                    &&& lock_refusal(
                        old(ledger)@,
                        self.signer@,
                        Some(self.mint@),
                        amount,
                        unlock_timestamp,
                    ).is_none()
                    &&& a@ == lock_address(
                        old(ledger)@,
                        self.signer@,
                        Some(self.mint@),
                        amount,
                        unlock_timestamp,
                    )
                    &&& final(ledger)@ == locked(
                        old(ledger)@,
                        self.signer@,
                        Some(self.mint@),
                        amount,
                        unlock_timestamp,
                    )
                },
                Err(e) => {
                    &&& lock_refusal(
                        old(ledger)@,
                        self.signer@,
                        Some(self.mint@),
                        amount,
                        unlock_timestamp,
                    ) == Some(e)
                    &&& final(ledger)@ == old(ledger)@
                },
            },
    {
        let now = ledger.now();
        match Vault::validate(amount, unlock_timestamp, now) {
            Err(e) => {
                return Err(e);
            },
            Ok(_) => {},
        }
        let program_id = ledger.program_id();
        let asset = Some(self.mint.key);
        let (address, bump) = match crate::address::derive(
            &self.signer,
            amount,
            unlock_timestamp,
            &asset,
            &program_id,
        ) {
            None => {
                return Err(TimelockBaseWalletErrorCode::Ledger(LedgerError::AddressUnavailable));
            },
            Some(found) => found,
        };
        if ledger.vaults.contains(&address) {
            return Err(TimelockBaseWalletErrorCode::Ledger(LedgerError::AccountInUse));
        }
        let registered = match ledger.decimals(&self.mint.key) {
            None => {
                return Err(TimelockBaseWalletErrorCode::Ledger(LedgerError::UnknownMint));
            },
            Some(d) => d,
        };
        let held = match ledger.token_balance(&self.signer, &self.mint.key) {
            None => {
                return Err(TimelockBaseWalletErrorCode::Ledger(LedgerError::MissingTokenAccount));
            },
            Some(h) => h,
        };
        if registered != self.mint.decimals {
            return Err(TimelockBaseWalletErrorCode::DecimalsMismatch);
        }
        if held < amount {
            return Err(TimelockBaseWalletErrorCode::Ledger(LedgerError::InsufficientFunds));
        }
        let record = match Vault::new_at(self.signer, amount, bump, unlock_timestamp, asset, now) {
            Err(e) => {
                return Err(e);
            },
            Ok(v) => v,
        };
        ledger.holdings.set(HoldingKey { owner: self.signer, mint: self.mint.key }, held - amount);
        ledger.vaults.set(address, record);
        assert(ledger@.vaults =~= old(ledger)@.vaults.insert(address@, record@));
        Ok(address)
    }
}

} // verus!
