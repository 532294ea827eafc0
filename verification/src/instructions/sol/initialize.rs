//! Locking an amount of the native currency.

use vstd::prelude::*;
use crate::address::Address;
use crate::error::{LedgerError, TimelockBaseWalletErrorCode};
use crate::ledger::Ledger;
use crate::lifecycle::{lock_address, lock_refusal, locked};
use crate::vault::Vault;

verus! {

/// The accounts of a native lock: the owner, who pays.
#[derive(Clone, Copy, Debug, PartialEq, Eq)]
pub struct InitializeSolLock {
    pub signer: Address,
}

impl InitializeSolLock {
    /// Locks `amount` of the signer's native balance until
    /// `unlock_timestamp`, and returns the address of the new vault. The
    /// lock takes effect exactly when nothing refuses it; a refused lock
    /// changes nothing.
    pub fn handler(&self, ledger: &mut Ledger, amount: u64, unlock_timestamp: i64) -> (r: Result<
        Address,
        TimelockBaseWalletErrorCode,
    >)
        requires
            old(ledger).wf(),
        ensures
            final(ledger).wf(),
            match r {
                Ok(a) => {
                    &&& lock_refusal(old(ledger)@, self.signer@, None, amount, unlock_timestamp)
                        .is_none()
                    &&& a@ == lock_address(old(ledger)@, self.signer@, None, amount, unlock_timestamp)
                    &&& final(ledger)@ == locked(
                        old(ledger)@,
                        self.signer@,
                        None,
                        amount,
                        unlock_timestamp,
                    )
                },
                Err(e) => {
                    &&& lock_refusal(old(ledger)@, self.signer@, None, amount, unlock_timestamp)
                        == Some(e)
                    &&& final(ledger)@ == old(ledger)@
                },
            },
    {
        let now = ledger.now();
        match Vault::validate(amount, unlock_timestamp, now) {
            Err(e) => {
                return Err(e);
            },
            Ok(_) => {},
        }
        let program_id = ledger.program_id();
        let (address, bump) = match crate::address::derive(&self.signer, amount, unlock_timestamp, &None, &program_id) {
            None => {
                return Err(TimelockBaseWalletErrorCode::Ledger(LedgerError::AddressUnavailable));
            },
            Some(found) => found,
        };
        if ledger.vaults.contains(&address) {
            return Err(TimelockBaseWalletErrorCode::Ledger(LedgerError::AccountInUse));
        }
        let held = ledger.balance(&self.signer);
        if held < amount {
            return Err(TimelockBaseWalletErrorCode::Ledger(LedgerError::InsufficientFunds));
        }
        let record = match Vault::new_at(self.signer, amount, bump, unlock_timestamp, None, now) {
            Err(e) => {
                return Err(e);
            },
            Ok(v) => v,
        };
        ledger.wallets.set(self.signer, held - amount);
        ledger.vaults.set(address, record);
        assert(ledger@.vaults =~= old(ledger)@.vaults.insert(address@, record@));
        Ok(address)
    }
}

} // verus!
