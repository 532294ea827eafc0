//! Withdrawing a native lock.

use vstd::prelude::*;
use crate::address::{rederive, Address};
use crate::error::{LedgerError, TimelockBaseWalletErrorCode};
use crate::ledger::Ledger;
use crate::lifecycle::{release_refusal, released};

verus! {

/// The accounts of a native withdrawal: the caller, who receives the
/// funds, and the vault.
#[derive(Clone, Copy, Debug, PartialEq, Eq)]
pub struct WithdrawSolLock {
    pub signer: Address,
    pub vault: Address,
}

impl WithdrawSolLock {
    /// Releases the funds of the vault to the signer and destroys the
    /// vault. The withdrawal takes effect exactly when nothing refuses it;
    /// a refused withdrawal changes nothing.
    pub fn handler(&self, ledger: &mut Ledger) -> (r: Result<(), TimelockBaseWalletErrorCode>)
        requires
            old(ledger).wf(),
        ensures
            final(ledger).wf(),
            match r {
                Ok(_) => {
                    &&& release_refusal(old(ledger)@, self.signer@, None, self.vault@).is_none()
                    &&& final(ledger)@ == released(old(ledger)@, self.signer@, None, self.vault@)
                },
                Err(e) => {
                    &&& release_refusal(old(ledger)@, self.signer@, None, self.vault@) == Some(e)
                    &&& final(ledger)@ == old(ledger)@
                },
            },
    {
        let record = match ledger.vault(&self.vault) {
            None => {
                return Err(TimelockBaseWalletErrorCode::VaultNotFound);
            },
            Some(v) => v,
        };
        match record.check_withdrawal(ledger.now(), &None) {
            Err(e) => {
                return Err(e);
            },
            Ok(_) => {},
        }
        let program_id = ledger.program_id();
        let verified = match rederive(
            &self.signer,
            record.amount,
            record.unlock_timestamp,
            &record.mint,
            record.bump,
            &program_id,
        ) {
            None => false,
            Some(a) => a.same(&self.vault),
        };
        if !verified {
            return Err(TimelockBaseWalletErrorCode::VaultNotFound);
        }
        let held = ledger.balance(&self.signer);
        if record.amount > u64::MAX - held {
            return Err(TimelockBaseWalletErrorCode::Ledger(LedgerError::BalanceOverflow));
        }
        ledger.vaults.remove(&self.vault);
        ledger.wallets.set(self.signer, held + record.amount);
        assert(ledger@.vaults =~= old(ledger)@.vaults.remove(self.vault@));
        Ok(())
    }
}

} // verus!
