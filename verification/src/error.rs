//! The failures that a lock or a withdrawal can end in.

use vstd::prelude::*;

verus! {

/// A failure of the ledger that holds the funds, passed on as it came.
#[derive(Clone, Copy, Debug, PartialEq, Eq, Structural)]
pub enum LedgerError {
    /// The clock could not be read.
    ClockUnavailable,
    /// No valid address can be derived for the vault.
    AddressUnavailable,
    /// The address of the vault is already occupied.
    AccountInUse,
    /// The payer holds less than the amount to move.
    InsufficientFunds,
    /// The asset is not registered.
    UnknownMint,
    /// The owner has no holding account for the asset.
    MissingTokenAccount,
    /// The receiving balance would exceed what a balance can hold.
    BalanceOverflow,
}

/// Why an instruction was refused. A refused instruction changes nothing.
#[derive(Clone, Copy, Debug, PartialEq, Eq, Structural)]
pub enum TimelockBaseWalletErrorCode {
    /// The unlock timestamp is not later than the current time.
    UnlockTimestampMustBeInFuture,
    /// The amount to lock is zero.
    AmountMustBeGreaterThanZero,
    /// The unlock timestamp has not been reached yet.
    VaultLocked,
    /// The asset presented is not the asset of the vault.
    InvalidVaultMint,
    /// The declared precision is not the registered precision of the asset.
    DecimalsMismatch,
    /// There is no vault of the caller at the address.
    VaultNotFound,
    /// The ledger refused an operation.
    Ledger(LedgerError),
}

} // verus!
