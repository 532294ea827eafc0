//! The ledger that holds the funds: native balances, registered assets,
//! token holding accounts, the vaults with what they keep in custody, and
//! the clock.
//!
//! Every operation either takes full effect or changes nothing.

use vstd::prelude::*;
use crate::address::{derived, rederived, Address};
use crate::error::LedgerError;
use crate::table::{Key, Table};
use crate::vault::{Vault, VaultView};

verus! {

/// What names a token holding account: its owner and the asset it holds.
#[derive(Clone, Copy, Debug, PartialEq, Eq)]
pub struct HoldingKey {
    pub owner: Address,
    pub mint: Address,
}

impl View for HoldingKey {
    type V = (Seq<u8>, Seq<u8>);

    open spec fn view(&self) -> (Seq<u8>, Seq<u8>) {
        (self.owner@, self.mint@)
    }
}

impl Key for HoldingKey {
    fn same_key(&self, other: &HoldingKey) -> (r: bool) {
        self.owner.same(&other.owner) && self.mint.same(&other.mint)
    }
}

/// The state of the ledger.
pub struct Ledger {
    pub(crate) program_id: Address,
    pub(crate) now: i64,
    pub(crate) wallets: Table<Address, u64>,
    pub(crate) mints: Table<Address, u8>,
    pub(crate) holdings: Table<HoldingKey, u64>,
    pub(crate) vaults: Table<Address, Vault>,
}

/// The state of the ledger as plain values.
pub ghost struct LedgerView {
    /// The identity of the program under which vault addresses are derived.
    pub program_id: Seq<u8>,
    /// The current time.
    pub now: i64,
    /// The native balance of each wallet that has one.
    pub wallets: Map<Seq<u8>, u64>,
    /// The registered precision of each asset.
    pub mints: Map<Seq<u8>, u8>,
    /// The balance of each token holding account, by owner and asset.
    pub holdings: Map<(Seq<u8>, Seq<u8>), u64>,
    /// The record of each vault, by address. A vault keeps in custody
    /// exactly the amount of its record.
    pub vaults: Map<Seq<u8>, VaultView>,
}

/// The native balance of a wallet: nothing where it was never funded.
pub open spec fn native_balance(l: LedgerView, wallet: Seq<u8>) -> u64 {
    if l.wallets.contains_key(wallet) {
        l.wallets[wallet]
    } else {
        0
    }
}

/// What holds of every vault at every moment: its amount is positive, its
/// address is the one derived from its fields, with the recorded salt, and
/// the asset of a token vault is registered.
pub open spec fn sound(l: LedgerView) -> bool {
    forall|a: Seq<u8>| #[trigger]
        l.vaults.contains_key(a) ==> {
            let v = l.vaults[a];
            &&& v.amount > 0
            &&& derived(v.owner, v.amount, v.unlock_timestamp, v.mint, l.program_id) == Some(
                (a, v.bump),
            )
            &&& rederived(v.owner, v.amount, v.unlock_timestamp, v.mint, v.bump, l.program_id)
                == Some(a)
            &&& v.mint matches Some(m) ==> l.mints.contains_key(m)
        }
}

impl View for Ledger {
    type V = LedgerView;

    open(crate) spec fn view(&self) -> LedgerView {
        LedgerView {
            program_id: self.program_id@,
            now: self.now,
            wallets: self.wallets@,
            mints: self.mints@,
            holdings: self.holdings@,
            vaults: self.vaults@.map_values(|v: Vault| v@),
        }
    }
}

impl Ledger {
    /// The ledger is well formed: its tables are, and its vaults are sound.
    pub open(crate) spec fn wf(&self) -> bool {
        &&& self.wallets.wf()
        &&& self.mints.wf()
        &&& self.holdings.wf()
        &&& self.vaults.wf()
        &&& sound(self@)
    }

    /// An empty ledger for a program, at a time.
    pub fn new(program_id: Address, now: i64) -> (r: Ledger)
        ensures
            r.wf(),
            r@ == (LedgerView {
                program_id: program_id@,
                now,
                wallets: Map::empty(),
                mints: Map::empty(),
                holdings: Map::empty(),
                vaults: Map::empty(),
            }),
    {
        let r = Ledger {
            program_id,
            now,
            wallets: Table::new(),
            mints: Table::new(),
            holdings: Table::new(),
            vaults: Table::new(),
        };
        assert(r@.vaults =~= Map::<Seq<u8>, VaultView>::empty());
        r
    }

    /// The current time.
    pub fn now(&self) -> (r: i64)
        ensures
            r == self@.now,
    {
        self.now
    }

    /// The identity of the program.
    pub fn program_id(&self) -> (r: Address)
        ensures
            r@ == self@.program_id,
    {
        self.program_id
    }

    /// Sets the clock.
    pub fn set_time(&mut self, now: i64)
        requires
            old(self).wf(),
        ensures
            final(self).wf(),
            final(self)@ == (LedgerView { now, ..old(self)@ }),
    {
        self.now = now;
    }

    /// The native balance of a wallet.
    pub fn balance(&self, wallet: &Address) -> (r: u64)
        requires
            self.wf(),
        ensures
            r == native_balance(self@, wallet@),
    {
        match self.wallets.get(wallet) {
            Some(b) => b,
            None => 0,
        }
    }

    /// Adds to the native balance of a wallet, unless the balance would
    /// exceed what a balance can hold.
    pub fn deposit(&mut self, wallet: Address, amount: u64) -> (r: Result<(), LedgerError>)
        requires
            old(self).wf(),
        ensures
            final(self).wf(),
            match r {
                Ok(_) => {
                    &&& native_balance(old(self)@, wallet@) + amount <= u64::MAX
                    &&& final(self)@ == (LedgerView {
                        wallets: old(self)@.wallets.insert(
                            wallet@,
                            (native_balance(old(self)@, wallet@) + amount) as u64,
                        ),
                        ..old(self)@
                    })
                },
                Err(e) => {
                    &&& e == LedgerError::BalanceOverflow
                    &&& native_balance(old(self)@, wallet@) + amount > u64::MAX
                    &&& final(self)@ == old(self)@
                },
            },
    {
        let held = self.balance(&wallet);
        if amount > u64::MAX - held {
            return Err(LedgerError::BalanceOverflow);
        }
        self.wallets.set(wallet, held + amount);
        Ok(())
    }

    /// The registered precision of an asset.
    pub fn decimals(&self, mint: &Address) -> (r: Option<u8>)
        requires
            self.wf(),
        ensures
            r == (if self@.mints.contains_key(mint@) {
                Some(self@.mints[mint@])
            } else {
                None
            }),
    {
        self.mints.get(mint)
    }

    /// Registers an asset with its precision, unless it is registered.
    pub fn register_mint(&mut self, mint: Address, decimals: u8) -> (r: Result<(), LedgerError>)
        requires
            old(self).wf(),
        ensures
            final(self).wf(),
            match r {
                Ok(_) => {
                    &&& !old(self)@.mints.contains_key(mint@)
                    &&& final(self)@ == (LedgerView {
                        mints: old(self)@.mints.insert(mint@, decimals),
                        ..old(self)@
                    })
                },
                Err(e) => {
                    &&& e == LedgerError::AccountInUse
                    &&& old(self)@.mints.contains_key(mint@)
                    &&& final(self)@ == old(self)@
                },
            },
    {
        if self.mints.contains(&mint) {
            return Err(LedgerError::AccountInUse);
        }
        self.mints.set(mint, decimals);
        Ok(())
    }

    /// The balance of the holding account of an owner for an asset, if the
    /// owner has one.
    pub fn token_balance(&self, owner: &Address, mint: &Address) -> (r: Option<u64>)
        requires
            self.wf(),
        ensures
            r == (if self@.holdings.contains_key((owner@, mint@)) {
                Some(self@.holdings[(owner@, mint@)])
            } else {
                None
            }),
    {
        self.holdings.get(&HoldingKey { owner: *owner, mint: *mint })
    }

    /// Opens an empty holding account of an owner for a registered asset,
    /// unless the owner has one.
    pub fn open_token_account(&mut self, owner: Address, mint: Address) -> (r: Result<
        (),
        LedgerError,
    >)
        requires
            old(self).wf(),
        ensures
            final(self).wf(),
            match r {
                Ok(_) => {
                    &&& old(self)@.mints.contains_key(mint@)
                    &&& !old(self)@.holdings.contains_key((owner@, mint@))
                    &&& final(self)@ == (LedgerView {
                        holdings: old(self)@.holdings.insert((owner@, mint@), 0),
                        ..old(self)@
                    })
                },
                Err(e) => {
                    &&& final(self)@ == old(self)@
                    &&& e == (if !old(self)@.mints.contains_key(mint@) {
                        LedgerError::UnknownMint
                    } else {
                        LedgerError::AccountInUse
                    })
                    &&& !old(self)@.mints.contains_key(mint@) || old(self)@.holdings.contains_key(
                        (owner@, mint@),
                    )
                },
            },
    {
        if !self.mints.contains(&mint) {
            return Err(LedgerError::UnknownMint);
        }
        let key = HoldingKey { owner, mint };
        if self.holdings.contains(&key) {
            return Err(LedgerError::AccountInUse);
        }
        self.holdings.set(key, 0);
        Ok(())
    }

    /// Adds to the holding account of an owner for an asset, if the owner
    /// has one and its balance stays within what a balance can hold.
    pub fn mint_to(&mut self, owner: Address, mint: Address, amount: u64) -> (r: Result<
        (),
        LedgerError,
    >)
        requires
            old(self).wf(),
        ensures
            final(self).wf(),
            match r {
                Ok(_) => {
                    &&& old(self)@.holdings.contains_key((owner@, mint@))
                    &&& old(self)@.holdings[(owner@, mint@)] + amount <= u64::MAX
                    &&& final(self)@ == (LedgerView {
                        holdings: old(self)@.holdings.insert(
                            (owner@, mint@),
                            (old(self)@.holdings[(owner@, mint@)] + amount) as u64,
                        ),
                        ..old(self)@
                    })
                },
                Err(e) => {
                    &&& final(self)@ == old(self)@
                    &&& e == (if !old(self)@.holdings.contains_key((owner@, mint@)) {
                        LedgerError::MissingTokenAccount
                    } else {
                        LedgerError::BalanceOverflow
                    })
                    &&& !old(self)@.holdings.contains_key((owner@, mint@)) || old(
                        self,
                    )@.holdings[(owner@, mint@)] + amount > u64::MAX
                },
            },
    {
        let key = HoldingKey { owner, mint };
        match self.holdings.get(&key) {
            None => Err(LedgerError::MissingTokenAccount),
            Some(held) => {
                if amount > u64::MAX - held {
                    return Err(LedgerError::BalanceOverflow);
                }
                self.holdings.set(key, held + amount);
                Ok(())
            },
        }
    }

    /// The record of the vault at an address, if there is one.
    pub fn vault(&self, address: &Address) -> (r: Option<Vault>)
        requires
            self.wf(),
        ensures
            match r {
                Some(v) => self@.vaults.contains_key(address@) && self@.vaults[address@] == v@,
                None => !self@.vaults.contains_key(address@),
            },
    {
        self.vaults.get(address)
    }
}

} // verus!
