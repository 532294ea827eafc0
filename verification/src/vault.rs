//! The record of one lock.

use vstd::prelude::*;
use vstd::bytes::*;
use vstd::slice::slice_subrange;
use crate::address::{asset_view, same_asset, timestamp_bytes, twos_complement, Address};
use crate::clock::unix_timestamp;
use crate::error::{LedgerError, TimelockBaseWalletErrorCode};

verus! {

/// The persisted state of one lock. It is created once, never changed, and
/// destroyed when the funds are released.
#[derive(Clone, Copy, Debug, PartialEq, Eq)]
pub struct Vault {
    /// The depositor, who alone may withdraw.
    pub owner: Address,
    /// The quantity locked; never zero.
    pub amount: u64,
    /// The salt with which the vault's address was derived.
    pub bump: u8,
    /// The earliest time at which the funds may be withdrawn.
    pub unlock_timestamp: i64,
    /// The asset locked: none for the native currency.
    pub mint: Option<Address>,
}

/// A lock as plain values.
pub ghost struct VaultView {
    pub owner: Seq<u8>,
    pub amount: u64,
    pub bump: u8,
    pub unlock_timestamp: i64,
    pub mint: Option<Seq<u8>>,
}

impl View for Vault {
    type V = VaultView;

    open spec fn view(&self) -> VaultView {
        VaultView {
            owner: self.owner@,
            amount: self.amount,
            bump: self.bump,
            unlock_timestamp: self.unlock_timestamp,
            mint: asset_view(self.mint),
        }
    }
}

/// Why a lock of the given amount until the given time is refused at the
/// time `now`, if it is: a zero amount first, then an unlock time that is
/// not in the future.
pub open spec fn refusal(amount: u64, unlock_timestamp: i64, now: i64) -> Option<
    TimelockBaseWalletErrorCode,
> {
    if amount == 0 {
        Some(TimelockBaseWalletErrorCode::AmountMustBeGreaterThanZero)
    } else if unlock_timestamp <= now {
        Some(TimelockBaseWalletErrorCode::UnlockTimestampMustBeInFuture)
    } else {
        None
    }
}

impl VaultView {
    /// Whether the funds may be withdrawn at the time `now`.
    pub open spec fn is_unlocked(self, now: i64) -> bool {
        now >= self.unlock_timestamp
    }

    /// Why the lock itself refuses a withdrawal at the time `now` with the
    /// asset presented, if it does: the unlock time first, then the asset.
    pub open spec fn withdrawal_refusal(self, now: i64, asset: Option<Seq<u8>>) -> Option<
        TimelockBaseWalletErrorCode,
    > {
        if !self.is_unlocked(now) {
            Some(TimelockBaseWalletErrorCode::VaultLocked)
        } else if self.mint != asset {
            Some(TimelockBaseWalletErrorCode::InvalidVaultMint)
        } else {
            None
        }
    }
}

impl Vault {
    /// Checks the amount and the unlock time of a lock asked for at `now`.
    pub fn validate(amount: u64, unlock_timestamp: i64, now: i64) -> (r: Result<
        (),
        TimelockBaseWalletErrorCode,
    >)
        ensures
            match r {
                Ok(_) => refusal(amount, unlock_timestamp, now).is_none(),
                Err(e) => refusal(amount, unlock_timestamp, now) == Some(e),
            },
    {
        if amount == 0 {
            Err(TimelockBaseWalletErrorCode::AmountMustBeGreaterThanZero)
        } else if unlock_timestamp <= now {
            Err(TimelockBaseWalletErrorCode::UnlockTimestampMustBeInFuture)
        } else {
            Ok(())
        }
    }

    /// The record of a lock asked for at the time `now`: made of the given
    /// fields exactly when the amount is positive and the unlock time lies
    /// in the future.
    pub fn new_at(
        owner: Address,
        amount: u64,
        bump: u8,
        unlock_timestamp: i64,
        mint: Option<Address>,
        now: i64,
    ) -> (r: Result<Vault, TimelockBaseWalletErrorCode>)
        ensures
            match r {
                Ok(v) => {
                    &&& refusal(amount, unlock_timestamp, now).is_none()
                    &&& v == (Vault { owner, amount, bump, unlock_timestamp, mint })
                },
                Err(e) => refusal(amount, unlock_timestamp, now) == Some(e),
            },
    {
        match Vault::validate(amount, unlock_timestamp, now) {
            Err(e) => Err(e),
            Ok(_) => Ok(Vault { owner, amount, bump, unlock_timestamp, mint }),
        }
    }

    /// The record of a lock asked for now, by the runtime's clock. A zero
    /// amount is refused before the clock is read. Otherwise the outcome is
    /// that of [`Vault::new_at`] at whatever time the clock gave, or the
    /// ledger's failure where it gave none.
    pub fn new(
        owner: Address,
        amount: u64,
        bump: u8,
        unlock_timestamp: i64,
        mint: Option<Address>,
    ) -> (r: Result<Vault, TimelockBaseWalletErrorCode>)
        ensures
            amount == 0 ==> r == Err::<Vault, _>(
                TimelockBaseWalletErrorCode::AmountMustBeGreaterThanZero,
            ),
            r matches Ok(v) ==> amount > 0 && v == (Vault {
                owner,
                amount,
                bump,
                unlock_timestamp,
                mint,
            }),
            r matches Err(e) ==> {
                ||| e == TimelockBaseWalletErrorCode::AmountMustBeGreaterThanZero && amount == 0
                ||| e == TimelockBaseWalletErrorCode::UnlockTimestampMustBeInFuture && amount > 0
                ||| e == TimelockBaseWalletErrorCode::Ledger(LedgerError::ClockUnavailable)
                    && amount > 0
            },
    {
        if amount == 0 {
            return Err(TimelockBaseWalletErrorCode::AmountMustBeGreaterThanZero);
        }
        match unix_timestamp() {
            Err(_) => Err(TimelockBaseWalletErrorCode::Ledger(LedgerError::ClockUnavailable)),
            Ok(now) => Vault::new_at(owner, amount, bump, unlock_timestamp, mint, now),
        }
    }

    /// Whether the funds may be withdrawn at the time `now`: from the unlock
    /// time on.
    pub fn is_unlocked(&self, now: i64) -> (r: bool)
        ensures
            r == self@.is_unlocked(now),
    {
        now >= self.unlock_timestamp
    }

    /// Checks a withdrawal asked for at the time `now` with the asset
    /// presented: the unlock time must have come, and the asset must be the
    /// asset of the lock.
    pub fn check_withdrawal(&self, now: i64, asset: &Option<Address>) -> (r: Result<
        (),
        TimelockBaseWalletErrorCode,
    >)
        ensures
            match r {
                Ok(_) => self@.withdrawal_refusal(now, asset_view(*asset)).is_none(),
                Err(e) => self@.withdrawal_refusal(now, asset_view(*asset)) == Some(e),
            },
    {
        if !self.is_unlocked(now) {
            Err(TimelockBaseWalletErrorCode::VaultLocked)
        } else if !same_asset(&self.mint, asset) {
            Err(TimelockBaseWalletErrorCode::InvalidVaultMint)
        } else {
            Ok(())
        }
    }
}

/// The persisted bytes of a lock: the owner, the amount in little-endian
/// bytes, the salt, the unlock timestamp in little-endian bytes, a flag that
/// tells whether an asset follows, and the asset if there is one.
pub open spec fn encoding(v: VaultView) -> Seq<u8> {
    v.owner + spec_u64_to_le_bytes(v.amount) + seq![v.bump] + timestamp_bytes(v.unlock_timestamp)
        + match v.mint {
        None => seq![0u8],
        Some(m) => seq![1u8] + m,
    }
}

/// The lock that persisted bytes hold, where they hold one: fifty bytes
/// with the flag clear, or eighty-two with the flag set.
pub open spec fn decoded(bytes: Seq<u8>) -> Option<VaultView> {
    if bytes.len() == 50 && bytes[49] == 0 {
        Some(decoded_fields(bytes, None))
    } else if bytes.len() == 82 && bytes[49] == 1 {
        Some(decoded_fields(bytes, Some(bytes.subrange(50, 82))))
    } else {
        None
    }
}

/// The fields at their fixed places in persisted bytes.
pub open spec fn decoded_fields(bytes: Seq<u8>, mint: Option<Seq<u8>>) -> VaultView {
    VaultView {
        owner: bytes.subrange(0, 32),
        amount: spec_u64_from_le_bytes(bytes.subrange(32, 40)),
        bump: bytes[40],
        unlock_timestamp: spec_u64_from_le_bytes(bytes.subrange(41, 49)) as i64,
        mint,
    }
}

/// A well-formed lock as plain values: identifiers are thirty-two bytes.
pub open spec fn well_formed(v: VaultView) -> bool {
    &&& v.owner.len() == 32
    &&& v.mint matches Some(m) ==> m.len() == 32
}

/// Reading back the bytes written for a lock gives that lock.
pub proof fn lemma_decode_encoding(v: VaultView)
    requires
        well_formed(v),
    ensures
        decoded(encoding(v)) == Some(v),
{
    let b = encoding(v);
    lemma_auto_spec_u64_to_from_le_bytes();
    let t = v.unlock_timestamp;
    assert((t as u64) as i64 == t) by (bit_vector);
    assert(b.subrange(0, 32) =~= v.owner);
    assert(b.subrange(32, 40) =~= spec_u64_to_le_bytes(v.amount));
    assert(b.subrange(41, 49) =~= timestamp_bytes(v.unlock_timestamp));
    assert(b[40] == v.bump);
    match v.mint {
        None => {
            assert(b.len() == 50);
            assert(b[49] == 0);
        },
        Some(m) => {
            assert(b.len() == 82);
            assert(b[49] == 1);
            assert(b.subrange(50, 82) =~= m);
        },
    }
}

/// Bytes that hold a lock are exactly the bytes written for that lock.
pub proof fn lemma_encoding_decoded(bytes: Seq<u8>)
    requires
        decoded(bytes).is_some(),
    ensures
        encoding(decoded(bytes).unwrap()) == bytes,
        well_formed(decoded(bytes).unwrap()),
{
    let v = decoded(bytes).unwrap();
    lemma_auto_spec_u64_to_from_le_bytes();
    let u = spec_u64_from_le_bytes(bytes.subrange(41, 49));
    assert((u as i64) as u64 == u) by (bit_vector);
    assert(spec_u64_to_le_bytes(v.amount) == bytes.subrange(32, 40));
    assert(timestamp_bytes(v.unlock_timestamp) == bytes.subrange(41, 49));
    assert(encoding(v) =~= bytes);
}

impl Vault {
    /// The persisted bytes of the lock.
    pub fn to_bytes(&self) -> (r: Vec<u8>)
        ensures
            r@ == encoding(self@),
    {
        let mut out = self.owner.to_vec();
        let mut amount = u64_to_le_bytes(self.amount);
        out.append(&mut amount);
        out.push(self.bump);
        let mut unlock = u64_to_le_bytes(twos_complement(self.unlock_timestamp));
        out.append(&mut unlock);
        match self.mint {
            None => {
                out.push(0u8);
            },
            Some(m) => {
                out.push(1u8);
                let mut mint = m.to_vec();
                out.append(&mut mint);
            },
        }
        assert(out@ =~= encoding(self@));
        out
    }

    /// The lock that persisted bytes hold: one is returned exactly when the
    /// bytes are those written for some lock, and it is that lock.
    pub fn from_bytes(bytes: &[u8]) -> (r: Option<Vault>)
        ensures
            match r {
                Some(v) => decoded(bytes@) == Some(v@),
                None => decoded(bytes@).is_none(),
            },
    {
        let n = bytes.len();
        if n != 50 && n != 82 {
            return None;
        }
        let flag = bytes[49];
        let mint = if n == 50 && flag == 0u8 {
            None
        } else if n == 82 && flag == 1u8 {
            Address::from_slice(slice_subrange(bytes, 50, 82))
        } else {
            return None;
        };
        match Address::from_slice(slice_subrange(bytes, 0, 32)) {
            None => None,
            Some(owner) => {
                let amount = u64_from_le_bytes(slice_subrange(bytes, 32, 40));
                let raw = u64_from_le_bytes(slice_subrange(bytes, 41, 49));
                Some(
                    Vault {
                        owner,
                        amount,
                        bump: bytes[40],
                        unlock_timestamp: signed(raw),
                        mint,
                    },
                )
            },
        }
    }
}

/// An unsigned number read as the signed number of the same sixty-four bits.
fn signed(x: u64) -> (r: i64)
    ensures
        r == x as i64,
{
    #[verifier::truncate]
    (x as i64)
}

} // verus!
