//! Timelock escrow: an amount of an asset, native currency or fungible
//! token, is held for an owner and released back to that owner once a
//! chosen timestamp has passed.
//!
//! The four instructions below act on a [`ledger::Ledger`]. Each either
//! takes full effect or changes nothing; [`lifecycle`] states, over the
//! ledger as plain values, when an instruction is refused and what the
//! ledger holds after one that is not.

use vstd::prelude::*;
use crate::address::Address;
use crate::error::TimelockBaseWalletErrorCode;
use crate::instructions::sol::initialize::InitializeSolLock;
use crate::instructions::sol::withdraw::WithdrawSolLock;
use crate::instructions::spl::initialize::InitializeSplLock;
use crate::instructions::spl::withdraw::WithdrawSplLock;
use crate::ledger::Ledger;
use crate::lifecycle::{lock_address, lock_refusal, locked, release_refusal, released};

pub mod address;
pub mod clock;
pub mod error;
pub mod events;
pub mod instructions;
pub mod ledger;
pub mod lifecycle;
pub mod table;
pub mod vault;

verus! {

/// Locks `amount` of the signer's native balance until `unlock_timestamp`
/// and returns the address of the new vault.
pub fn initialize_sol_lock(
    ledger: &mut Ledger,
    accounts: &InitializeSolLock,
    amount: u64,
    unlock_timestamp: i64,
) -> (r: Result<Address, TimelockBaseWalletErrorCode>)
    requires
        old(ledger).wf(),
    ensures
        final(ledger).wf(),
        match r {
            Ok(a) => {
                &&& lock_refusal(old(ledger)@, accounts.signer@, None, amount, unlock_timestamp)
                    .is_none()
                &&& a@ == lock_address(old(ledger)@, accounts.signer@, None, amount, unlock_timestamp)
                &&& final(ledger)@ == locked(
                    old(ledger)@,
                    accounts.signer@,
                    None,
                    amount,
                    unlock_timestamp,
                )
            },
            Err(e) => {
                &&& lock_refusal(old(ledger)@, accounts.signer@, None, amount, unlock_timestamp)
                    == Some(e)
                &&& final(ledger)@ == old(ledger)@
            },
        },
{
    accounts.handler(ledger, amount, unlock_timestamp)
}

/// Releases the funds of a native vault to the signer and destroys the
/// vault.
pub fn withdraw_sol_lock(ledger: &mut Ledger, accounts: &WithdrawSolLock) -> (r: Result<
    (),
    TimelockBaseWalletErrorCode,
>)
    requires
        old(ledger).wf(),
    ensures
        final(ledger).wf(),
        match r {
            Ok(_) => {
                &&& release_refusal(old(ledger)@, accounts.signer@, None, accounts.vault@).is_none()
                &&& final(ledger)@ == released(
                    old(ledger)@,
                    accounts.signer@,
                    None,
                    accounts.vault@,
                )
            },
            Err(e) => {
                &&& release_refusal(old(ledger)@, accounts.signer@, None, accounts.vault@) == Some(e)
                &&& final(ledger)@ == old(ledger)@
            },
        },
{
    accounts.handler(ledger)
}

/// Locks `amount` of an asset from the signer's holding account until
/// `unlock_timestamp` and returns the address of the new vault.
pub fn initialize_spl_lock(
    ledger: &mut Ledger,
    accounts: &InitializeSplLock,
    amount: u64,
    unlock_timestamp: i64,
) -> (r: Result<Address, TimelockBaseWalletErrorCode>)
    requires
        old(ledger).wf(),
    ensures
        final(ledger).wf(),
        match r {
            Ok(a) => {
                &&& lock_refusal(
                    old(ledger)@,
                    accounts.signer@,
                    Some(accounts.mint@),
                    amount,
                    unlock_timestamp,
                ).is_none()
                &&& a@ == lock_address(
                    old(ledger)@,
                    accounts.signer@,
                    Some(accounts.mint@),
                    amount,
                    unlock_timestamp,
                )
                &&& final(ledger)@ == locked(
                    old(ledger)@,
                    accounts.signer@,
                    Some(accounts.mint@),
                    amount,
                    unlock_timestamp,
                )
            },
            Err(e) => {
                &&& lock_refusal(
                    old(ledger)@,
                    accounts.signer@,
                    Some(accounts.mint@),
                    amount,
                    unlock_timestamp,
                ) == Some(e)
                &&& final(ledger)@ == old(ledger)@
            },
        },
{
    accounts.handler(ledger, amount, unlock_timestamp)
}

/// Moves what a token vault keeps in custody to the signer's holding
/// account and destroys the vault.
pub fn withdraw_spl_lock(ledger: &mut Ledger, accounts: &WithdrawSplLock) -> (r: Result<
    (),
    TimelockBaseWalletErrorCode,
>)
    requires
        old(ledger).wf(),
    ensures
        final(ledger).wf(),
        match r {
            Ok(_) => {
                &&& release_refusal(
                    old(ledger)@,
                    accounts.signer@,
                    Some(accounts.mint@),
                    accounts.vault@,
                ).is_none()
                &&& final(ledger)@ == released(
                    old(ledger)@,
                    accounts.signer@,
                    Some(accounts.mint@),
                    accounts.vault@,
                )
            },
            Err(e) => {
                &&& release_refusal(
                    old(ledger)@,
                    accounts.signer@,
                    Some(accounts.mint@),
                    accounts.vault@,
                ) == Some(e)
                &&& final(ledger)@ == old(ledger)@
            },
        },
{
    accounts.handler(ledger)
}

} // verus!
