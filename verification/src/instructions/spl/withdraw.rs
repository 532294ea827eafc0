//! Withdrawing a token lock.

use vstd::prelude::*;
use crate::address::{rederive, Address};
use crate::error::{LedgerError, TimelockBaseWalletErrorCode};
use crate::ledger::{HoldingKey, Ledger};
use crate::lifecycle::{release_refusal, released, MintAccount};

verus! {

/// The accounts of a token withdrawal: the caller, who receives the funds
/// in the holding account they have for the asset, the asset as they
/// present it, and the vault.
#[derive(Clone, Copy, Debug, PartialEq, Eq)]
pub struct WithdrawSplLock {
    pub signer: Address,
    pub mint: MintAccount,
    pub vault: Address,
}

impl WithdrawSplLock {
    /// Moves what the vault keeps in custody to the signer's holding
    /// account, on the authority that the vault's own derivation gives, and
    /// destroys the vault with its custody. The withdrawal takes effect
    /// exactly when nothing refuses it; a refused withdrawal changes
    /// nothing.
    pub fn handler(&self, ledger: &mut Ledger) -> (r: Result<(), TimelockBaseWalletErrorCode>)
        requires
            old(ledger).wf(),
        ensures
            final(ledger).wf(),
            match r {
                Ok(_) => {
                    &&& release_refusal(old(ledger)@, self.signer@, Some(self.mint@), self.vault@)
                        .is_none()
                    &&& final(ledger)@ == released(
                        old(ledger)@,
                        self.signer@,
                        Some(self.mint@),
                        self.vault@,
                    )
                },
                Err(e) => {
                    &&& release_refusal(old(ledger)@, self.signer@, Some(self.mint@), self.vault@)
                        == Some(e)
                    &&& final(ledger)@ == old(ledger)@
                },
            },
    {
        let record = match ledger.vault(&self.vault) {
            None => {
                return Err(TimelockBaseWalletErrorCode::VaultNotFound);
            },
            Some(v) => v,
        };
        match record.check_withdrawal(ledger.now(), &Some(self.mint.key)) {
            Err(e) => {
                return Err(e);
            },
            Ok(_) => {},
        }
        let program_id = ledger.program_id();
        let verified = match rederive(
            &self.signer,
            record.amount,
            record.unlock_timestamp,
            &record.mint,
            record.bump,
            &program_id,
        ) {
            None => false,
            Some(a) => a.same(&self.vault),
        };
        if !verified {
            return Err(TimelockBaseWalletErrorCode::VaultNotFound);
        }
        let held = match ledger.token_balance(&self.signer, &self.mint.key) {
            None => {
                return Err(TimelockBaseWalletErrorCode::Ledger(LedgerError::MissingTokenAccount));
            },
            Some(h) => h,
        };
        match ledger.decimals(&self.mint.key) {
            None => {
                return Err(TimelockBaseWalletErrorCode::DecimalsMismatch);
            },
            Some(d) => {
                if d != self.mint.decimals {
                    return Err(TimelockBaseWalletErrorCode::DecimalsMismatch);
                }
            },
        }
        if record.amount > u64::MAX - held {
            return Err(TimelockBaseWalletErrorCode::Ledger(LedgerError::BalanceOverflow));
        }
        ledger.vaults.remove(&self.vault);
        ledger.holdings.set(
            HoldingKey { owner: self.signer, mint: self.mint.key },
            held + record.amount,
        );
        assert(ledger@.vaults =~= old(ledger)@.vaults.remove(self.vault@));
        Ok(())
    }
}

} // verus!
