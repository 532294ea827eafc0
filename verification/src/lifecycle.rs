//! The life of a vault, stated over the ledger as plain values: when a lock
//! or a withdrawal is refused and why, and what the ledger holds after one
//! that is not.
//!
//! A vault is locked from the moment it is created and is destroyed in the
//! same step that releases its funds; there is no other change to it.

use vstd::prelude::*;
use crate::address::{derived, rederived, Address};
use crate::error::{LedgerError, TimelockBaseWalletErrorCode};
use crate::ledger::{native_balance, sound, LedgerView};
use crate::vault::{refusal, VaultView};

verus! {

/// An asset as the caller presents it: its identifier and the precision the
/// caller declares for it.
#[derive(Clone, Copy, Debug, PartialEq, Eq)]
pub struct MintAccount {
    pub key: Address,
    pub decimals: u8,
}

impl View for MintAccount {
    type V = (Seq<u8>, u8);

    open spec fn view(&self) -> (Seq<u8>, u8) {
        (self.key@, self.decimals)
    }
}

/// The identifier of a presented asset; none for the native currency.
pub open spec fn asset_id(asset: Option<(Seq<u8>, u8)>) -> Option<Seq<u8>> {
    match asset {
        None => None,
        Some((m, _)) => Some(m),
    }
}

/// Why a lock is refused, if it is. The amount and the unlock time are
/// checked first, then the address is derived and must be free, then the
/// funds must be there: for a token lock the asset must be registered, the
/// owner must have a holding account for it, and the declared precision
/// must be the registered one.
pub open spec fn lock_refusal(
    l: LedgerView,
    owner: Seq<u8>,
    asset: Option<(Seq<u8>, u8)>,
    amount: u64,
    unlock_timestamp: i64,
) -> Option<TimelockBaseWalletErrorCode> {
    let found = derived(owner, amount, unlock_timestamp, asset_id(asset), l.program_id);
    if refusal(amount, unlock_timestamp, l.now).is_some() {
        refusal(amount, unlock_timestamp, l.now)
    } else if found.is_none() {
        Some(TimelockBaseWalletErrorCode::Ledger(LedgerError::AddressUnavailable))
    } else if l.vaults.contains_key(found.unwrap().0) {
        Some(TimelockBaseWalletErrorCode::Ledger(LedgerError::AccountInUse))
    } else {
        match asset {
            None => if native_balance(l, owner) < amount {
                Some(TimelockBaseWalletErrorCode::Ledger(LedgerError::InsufficientFunds))
            } else {
                None
            },
            Some((m, decimals)) => if !l.mints.contains_key(m) {
                Some(TimelockBaseWalletErrorCode::Ledger(LedgerError::UnknownMint))
            } else if !l.holdings.contains_key((owner, m)) {
                Some(TimelockBaseWalletErrorCode::Ledger(LedgerError::MissingTokenAccount))
            } else if l.mints[m] != decimals {
                Some(TimelockBaseWalletErrorCode::DecimalsMismatch)
            } else if l.holdings[(owner, m)] < amount {
                Some(TimelockBaseWalletErrorCode::Ledger(LedgerError::InsufficientFunds))
            } else {
                None
            },
        }
    }
}

/// The address at which a lock places its vault.
pub open spec fn lock_address(
    l: LedgerView,
    owner: Seq<u8>,
    asset: Option<(Seq<u8>, u8)>,
    amount: u64,
    unlock_timestamp: i64,
) -> Seq<u8> {
    derived(owner, amount, unlock_timestamp, asset_id(asset), l.program_id).unwrap().0
}

/// The record that a lock creates.
pub open spec fn lock_record(
    l: LedgerView,
    owner: Seq<u8>,
    asset: Option<(Seq<u8>, u8)>,
    amount: u64,
    unlock_timestamp: i64,
) -> VaultView {
    VaultView {
        owner,
        amount,
        bump: derived(owner, amount, unlock_timestamp, asset_id(asset), l.program_id).unwrap().1,
        unlock_timestamp,
        mint: asset_id(asset),
    }
}

/// The ledger after a lock that is not refused: the amount has left the
/// owner's balance, or holding account, and the vault stands at its address.
pub open spec fn locked(
    l: LedgerView,
    owner: Seq<u8>,
    asset: Option<(Seq<u8>, u8)>,
    amount: u64,
    unlock_timestamp: i64,
) -> LedgerView {
    let vaults = l.vaults.insert(
        lock_address(l, owner, asset, amount, unlock_timestamp),
        lock_record(l, owner, asset, amount, unlock_timestamp),
    );
    match asset {
        None => LedgerView {
            wallets: l.wallets.insert(owner, (native_balance(l, owner) - amount) as u64),
            vaults,
            ..l
        },
        Some((m, _)) => LedgerView {
            holdings: l.holdings.insert((owner, m), (l.holdings[(owner, m)] - amount) as u64),
            vaults,
            ..l
        },
    }
}

/// Why a withdrawal is refused, if it is. There must be a vault at the
/// address; its unlock time must have come; the asset presented must be
/// the asset of the vault; the address derived again from the caller, the
/// recorded fields and the recorded salt must be the address of the vault;
/// and the funds must fit where they go.
pub open spec fn release_refusal(
    l: LedgerView,
    signer: Seq<u8>,
    asset: Option<(Seq<u8>, u8)>,
    vault: Seq<u8>,
) -> Option<TimelockBaseWalletErrorCode> {
    if !l.vaults.contains_key(vault) {
        Some(TimelockBaseWalletErrorCode::VaultNotFound)
    } else {
        let v = l.vaults[vault];
        if v.withdrawal_refusal(l.now, asset_id(asset)).is_some() {
            v.withdrawal_refusal(l.now, asset_id(asset))
        } else if rederived(signer, v.amount, v.unlock_timestamp, v.mint, v.bump, l.program_id)
            != Some(vault) {
            Some(TimelockBaseWalletErrorCode::VaultNotFound)
        } else {
            match asset {
                None => if native_balance(l, signer) + v.amount > u64::MAX {
                    Some(TimelockBaseWalletErrorCode::Ledger(LedgerError::BalanceOverflow))
                } else {
                    None
                },
                Some((m, decimals)) => if !l.holdings.contains_key((signer, m)) {
                    Some(TimelockBaseWalletErrorCode::Ledger(LedgerError::MissingTokenAccount))
                } else if !l.mints.contains_key(m) || l.mints[m] != decimals {
                    Some(TimelockBaseWalletErrorCode::DecimalsMismatch)
                } else if l.holdings[(signer, m)] + v.amount > u64::MAX {
                    Some(TimelockBaseWalletErrorCode::Ledger(LedgerError::BalanceOverflow))
                } else {
                    None
                },
            }
        }
    }
}

/// The ledger after a withdrawal that is not refused: the vault is gone,
/// and its amount has reached the caller's balance, or holding account.
pub open spec fn released(
    l: LedgerView,
    signer: Seq<u8>,
    asset: Option<(Seq<u8>, u8)>,
    vault: Seq<u8>,
) -> LedgerView {
    let amount = l.vaults[vault].amount;
    match asset {
        None => LedgerView {
            wallets: l.wallets.insert(signer, (native_balance(l, signer) + amount) as u64),
            vaults: l.vaults.remove(vault),
            ..l
        },
        Some((m, _)) => LedgerView {
            holdings: l.holdings.insert((signer, m), (l.holdings[(signer, m)] + amount) as u64),
            vaults: l.vaults.remove(vault),
            ..l
        },
    }
}

/// Whether the ledger has what a lock needs besides a valid amount and
/// unlock time: an address for the vault that is free, and the funds. For a
/// token lock the funds lie in the owner's holding account for the asset,
/// which must be registered with the precision that the caller declares.
pub open spec fn admits_lock(
    l: LedgerView,
    owner: Seq<u8>,
    asset: Option<(Seq<u8>, u8)>,
    amount: u64,
    unlock_timestamp: i64,
) -> bool {
    let found = derived(owner, amount, unlock_timestamp, asset_id(asset), l.program_id);
    &&& found.is_some()
    &&& !l.vaults.contains_key(found.unwrap().0)
    &&& match asset {
        None => native_balance(l, owner) >= amount,
        Some((m, decimals)) => {
            &&& l.mints.contains_key(m)
            &&& l.mints[m] == decimals
            &&& l.holdings.contains_key((owner, m))
            &&& l.holdings[(owner, m)] >= amount
        },
    }
}

/// Whether the funds of a vault fit where a withdrawal by `signer` would
/// put them. For a token vault they go to the signer's holding account for
/// the asset, which must exist, and the caller must declare the registered
/// precision.
pub open spec fn admits_release(
    l: LedgerView,
    signer: Seq<u8>,
    asset: Option<(Seq<u8>, u8)>,
    vault: Seq<u8>,
) -> bool {
    match asset {
        None => native_balance(l, signer) + l.vaults[vault].amount <= u64::MAX,
        Some((m, decimals)) => {
            &&& l.holdings.contains_key((signer, m))
            &&& l.mints.contains_key(m)
            &&& l.mints[m] == decimals
            &&& l.holdings[(signer, m)] + l.vaults[vault].amount <= u64::MAX
        },
    }
}

/// A lock of a positive amount until a time in the future is not refused
/// where the ledger admits it, and it creates, at the address derived from
/// the owner, the amount, the unlock time and the asset, a record of exactly
/// these fields.
pub proof fn lemma_lock_creates_vault_at_derived_address(
    l: LedgerView,
    owner: Seq<u8>,
    asset: Option<(Seq<u8>, u8)>,
    amount: u64,
    unlock_timestamp: i64,
)
    requires
        amount > 0,
        unlock_timestamp > l.now,
        admits_lock(l, owner, asset, amount, unlock_timestamp),
    ensures
        lock_refusal(l, owner, asset, amount, unlock_timestamp).is_none(),
        ({
            let after = locked(l, owner, asset, amount, unlock_timestamp);
            let found = derived(owner, amount, unlock_timestamp, asset_id(asset), l.program_id);
            &&& after.vaults.contains_key(found.unwrap().0)
            &&& after.vaults[found.unwrap().0] == VaultView {
                owner,
                amount,
                bump: found.unwrap().1,
                unlock_timestamp,
                mint: asset_id(asset),
            }
        }),
{
}

/// A lock that is not refused has a positive amount and an unlock time in
/// the future, and the ledger admits it.
pub proof fn lemma_lock_not_refused(
    l: LedgerView,
    owner: Seq<u8>,
    asset: Option<(Seq<u8>, u8)>,
    amount: u64,
    unlock_timestamp: i64,
)
    requires
        lock_refusal(l, owner, asset, amount, unlock_timestamp).is_none(),
    ensures
        amount > 0,
        unlock_timestamp > l.now,
        admits_lock(l, owner, asset, amount, unlock_timestamp),
{
}

/// A lock of nothing is refused for its amount, whatever the unlock time,
/// the owner, the asset and the state of the ledger.
pub proof fn lemma_zero_amount_refused(
    l: LedgerView,
    owner: Seq<u8>,
    asset: Option<(Seq<u8>, u8)>,
    unlock_timestamp: i64,
)
    ensures
        lock_refusal(l, owner, asset, 0, unlock_timestamp) == Some(
            TimelockBaseWalletErrorCode::AmountMustBeGreaterThanZero,
        ),
{
}

/// A lock of a positive amount until a time that is not in the future is
/// refused for its unlock time, whatever the state of the ledger.
pub proof fn lemma_unlock_in_past_refused(
    l: LedgerView,
    owner: Seq<u8>,
    asset: Option<(Seq<u8>, u8)>,
    amount: u64,
    unlock_timestamp: i64,
)
    requires
        amount > 0,
        unlock_timestamp <= l.now,
    ensures
        lock_refusal(l, owner, asset, amount, unlock_timestamp) == Some(
            TimelockBaseWalletErrorCode::UnlockTimestampMustBeInFuture,
        ),
{
}

/// Before its unlock time a vault cannot be withdrawn: whoever asks, and
/// with whatever asset, is told that the vault is locked.
pub proof fn lemma_withdraw_before_unlock_refused(
    l: LedgerView,
    signer: Seq<u8>,
    asset: Option<(Seq<u8>, u8)>,
    vault: Seq<u8>,
)
    requires
        l.vaults.contains_key(vault),
        l.now < l.vaults[vault].unlock_timestamp,
    ensures
        release_refusal(l, signer, asset, vault) == Some(TimelockBaseWalletErrorCode::VaultLocked),
{
}

/// From its unlock time on, a vault cannot be withdrawn with another asset
/// than its own.
pub proof fn lemma_withdraw_with_other_asset_refused(
    l: LedgerView,
    signer: Seq<u8>,
    asset: Option<(Seq<u8>, u8)>,
    vault: Seq<u8>,
)
    requires
        l.vaults.contains_key(vault),
        l.now >= l.vaults[vault].unlock_timestamp,
        asset_id(asset) != l.vaults[vault].mint,
    ensures
        release_refusal(l, signer, asset, vault) == Some(
            TimelockBaseWalletErrorCode::InvalidVaultMint,
        ),
{
}

/// From its unlock time on, the owner of a vault can withdraw it once: the
/// withdrawal is not refused where the funds fit, it adds exactly the
/// amount of the vault to what the owner holds and changes no other
/// balance, and it leaves no vault at the address, so that whoever asks
/// again is told that there is none.
pub proof fn lemma_owner_withdraws_once(
    l: LedgerView,
    asset: Option<(Seq<u8>, u8)>,
    vault: Seq<u8>,
    again_signer: Seq<u8>,
    again_asset: Option<(Seq<u8>, u8)>,
)
    requires
        sound(l),
        l.vaults.contains_key(vault),
        l.now >= l.vaults[vault].unlock_timestamp,
        asset_id(asset) == l.vaults[vault].mint,
        admits_release(l, l.vaults[vault].owner, asset, vault),
    ensures
        release_refusal(l, l.vaults[vault].owner, asset, vault).is_none(),
        ({
            let owner = l.vaults[vault].owner;
            let amount = l.vaults[vault].amount;
            let after = released(l, owner, asset, vault);
            &&& sound(after)
            &&& !after.vaults.contains_key(vault)
            &&& release_refusal(after, again_signer, again_asset, vault) == Some(
                TimelockBaseWalletErrorCode::VaultNotFound,
            )
            &&& match asset {
                None => {
                    &&& native_balance(after, owner) == native_balance(l, owner) + amount
                    &&& after.holdings == l.holdings
                    &&& forall|w: Seq<u8>|
                        w != owner ==> native_balance(after, w) == native_balance(l, w)
                },
                Some((m, _)) => {
                    &&& after.holdings[(owner, m)] == l.holdings[(owner, m)] + amount
                    &&& after.wallets == l.wallets
                    &&& forall|k: (Seq<u8>, Seq<u8>)|
                        k != (owner, m) ==> after.holdings.contains_key(k)
                            == l.holdings.contains_key(k) && after.holdings[k] == l.holdings[k]
                },
            }
        }),
{
}

/// A withdrawal changes nothing but the vault it destroys and the one
/// balance it adds to: every other vault stays as it was.
pub proof fn lemma_release_keeps_other_vaults(
    l: LedgerView,
    signer: Seq<u8>,
    asset: Option<(Seq<u8>, u8)>,
    vault: Seq<u8>,
    other: Seq<u8>,
)
    requires
        other != vault,
    ensures
        released(l, signer, asset, vault).vaults.contains_key(other) == l.vaults.contains_key(
            other,
        ),
        released(l, signer, asset, vault).vaults[other] == l.vaults[other],
{
}

/// Locking and, once the unlock time has come, withdrawing gives the owner
/// back exactly what was locked: the withdrawal is not refused, and after
/// it every balance and every vault is as it was before the lock.
pub proof fn lemma_lock_then_withdraw_restores(
    l: LedgerView,
    owner: Seq<u8>,
    asset: Option<(Seq<u8>, u8)>,
    amount: u64,
    unlock_timestamp: i64,
    later: i64,
)
    requires
        lock_refusal(l, owner, asset, amount, unlock_timestamp).is_none(),
        sound(locked(l, owner, asset, amount, unlock_timestamp)),
        later >= unlock_timestamp,
    ensures
        ({
            let vault = lock_address(l, owner, asset, amount, unlock_timestamp);
            let then = LedgerView {
                now: later,
                ..locked(l, owner, asset, amount, unlock_timestamp)
            };
            let after = released(then, owner, asset, vault);
            &&& release_refusal(then, owner, asset, vault).is_none()
            &&& after.vaults == l.vaults
            &&& after.mints == l.mints
            &&& forall|w: Seq<u8>| native_balance(after, w) == native_balance(l, w)
            &&& after.holdings == l.holdings
        }),
{
    let vault = lock_address(l, owner, asset, amount, unlock_timestamp);
    let mid = locked(l, owner, asset, amount, unlock_timestamp);
    let then = LedgerView { now: later, ..mid };
    let after = released(then, owner, asset, vault);
    assert(mid.vaults.contains_key(vault));
    assert(after.vaults =~= l.vaults);
    match asset {
        None => {
            assert(after.holdings == l.holdings);
        },
        Some((m, _)) => {
            assert(after.holdings =~= l.holdings);
        },
    }
}

/// At most one vault exists for an owner, an amount, an unlock time and an
/// asset: two vaults with the same defining fields stand at one address.
pub proof fn lemma_one_vault_per_tuple(l: LedgerView, a: Seq<u8>, b: Seq<u8>)
    requires
        sound(l),
        l.vaults.contains_key(a),
        l.vaults.contains_key(b),
        l.vaults[a].owner == l.vaults[b].owner,
        l.vaults[a].amount == l.vaults[b].amount,
        l.vaults[a].unlock_timestamp == l.vaults[b].unlock_timestamp,
        l.vaults[a].mint == l.vaults[b].mint,
    ensures
        a == b,
{
}

/// While a vault exists, a second lock of the same owner, amount, unlock
/// time and asset is refused: by the clock where the unlock time is no
/// longer in the future, else because the address is in use.
pub proof fn lemma_second_lock_refused(
    l: LedgerView,
    vault: Seq<u8>,
    asset: Option<(Seq<u8>, u8)>,
)
    requires
        sound(l),
        l.vaults.contains_key(vault),
        asset_id(asset) == l.vaults[vault].mint,
    ensures
        ({
            let v = l.vaults[vault];
            lock_refusal(l, v.owner, asset, v.amount, v.unlock_timestamp) == Some(
                if v.unlock_timestamp <= l.now {
                    TimelockBaseWalletErrorCode::UnlockTimestampMustBeInFuture
                } else {
                    TimelockBaseWalletErrorCode::Ledger(LedgerError::AccountInUse)
                },
            )
        }),
{
}

/// A lock changes no vault that exists: each stays at its address with its
/// record.
pub proof fn lemma_lock_keeps_other_vaults(
    l: LedgerView,
    owner: Seq<u8>,
    asset: Option<(Seq<u8>, u8)>,
    amount: u64,
    unlock_timestamp: i64,
    other: Seq<u8>,
)
    requires
        lock_refusal(l, owner, asset, amount, unlock_timestamp).is_none(),
        l.vaults.contains_key(other),
    ensures
        locked(l, owner, asset, amount, unlock_timestamp).vaults.contains_key(other),
        locked(l, owner, asset, amount, unlock_timestamp).vaults[other] == l.vaults[other],
{
}

} // verus!
