//! Thirty-two byte identifiers and the derivation of vault addresses.
//!
//! A vault lives at an address that is derived from the fields that define
//! it: the owner, the amount, the unlock timestamp and, for a token lock, the
//! asset. The derivation itself is done by `anchor_lang`; this module builds
//! the seeds that are handed to it and states what the result is a function
//! of.

use vstd::prelude::*;
use vstd::bytes::*;

verus! {

/// A fixed-size public identifier: an owner, an asset, a program or a vault.
#[derive(Clone, Copy, Debug, PartialEq, Eq)]
pub struct Address {
    pub bytes: [u8; 32],
}

impl View for Address {
    type V = Seq<u8>;

    open spec fn view(&self) -> Seq<u8> {
        self.bytes@
    }
}

impl Address {
    /// The identifier made of the given bytes.
    pub fn new(bytes: [u8; 32]) -> (r: Address)
        ensures
            r@ == bytes@,
            r.bytes == bytes,
    {
        Address { bytes }
    }

    /// Whether two identifiers hold the same bytes.
    pub fn same(&self, other: &Address) -> (r: bool)
        ensures
            r == (self@ == other@),
    {
        let mut i: usize = 0;
        while i < 32
            invariant
                i <= 32,
                forall|j: int| 0 <= j < i ==> self.bytes@[j] == other.bytes@[j],
            decreases 32 - i,
        {
            if self.bytes[i] != other.bytes[i] {
                return false;
            }
            i += 1;
        }
        assert(self@ =~= other@);
        true
    }

    /// The identifier that a slice of exactly thirty-two bytes holds.
    pub fn from_slice(bytes: &[u8]) -> (r: Option<Address>)
        ensures
            r.is_some() == (bytes@.len() == 32),
            r matches Some(a) ==> a@ == bytes@,
    {
        if bytes.len() != 32 {
            return None;
        }
        let mut out: [u8; 32] = [0u8; 32];
        let mut i: usize = 0;
        while i < 32
            invariant
                i <= 32,
                bytes@.len() == 32,
                forall|j: int| 0 <= j < i ==> out@[j] == bytes@[j],
            decreases 32 - i,
        {
            out[i] = bytes[i];
            i += 1;
        }
        assert(out@ =~= bytes@);
        Some(Address { bytes: out })
    }

    /// The bytes of the identifier, as a vector.
    pub fn to_vec(&self) -> (r: Vec<u8>)
        ensures
            r@ == self@,
    {
        let mut out: Vec<u8> = Vec::new();
        let mut i: usize = 0;
        while i < 32
            invariant
                i <= 32,
                out@ == self@.subrange(0, i as int),
            decreases 32 - i,
        {
            out.push(self.bytes[i]);
            assert(out@ =~= self@.subrange(0, i + 1));
            i += 1;
        }
        assert(out@ =~= self@);
        out
    }
}

/// Whether two optional identifiers are both absent or hold the same bytes.
pub fn same_asset(a: &Option<Address>, b: &Option<Address>) -> (r: bool)
    ensures
        r == (asset_view(*a) == asset_view(*b)),
{
    match (a, b) {
        (None, None) => true,
        (Some(x), Some(y)) => x.same(y),
        _ => false,
    }
}

/// The bytes of an optional identifier.
pub open spec fn asset_view(a: Option<Address>) -> Option<Seq<u8>> {
    match a {
        None => None,
        Some(x) => Some(x@),
    }
}

/// The constant first seed of every vault address: the ASCII text `vault`.
pub open spec fn vault_tag() -> Seq<u8> {
    seq![118u8, 97u8, 117u8, 108u8, 116u8]
}

/// The eight little-endian bytes of a timestamp, in two's complement.
pub open spec fn timestamp_bytes(unlock_timestamp: i64) -> Seq<u8> {
    spec_u64_to_le_bytes(unlock_timestamp as u64)
}

/// The seeds of a vault address: the tag, the owner, the asset if there is
/// one, the amount and the unlock timestamp, both as little-endian bytes.
pub open spec fn vault_seeds(
    owner: Seq<u8>,
    amount: u64,
    unlock_timestamp: i64,
    mint: Option<Seq<u8>>,
) -> Seq<Seq<u8>> {
    match mint {
        None => seq![
            vault_tag(),
            owner,
            spec_u64_to_le_bytes(amount),
            timestamp_bytes(unlock_timestamp),
        ],
        Some(m) => seq![
            vault_tag(),
            owner,
            m,
            spec_u64_to_le_bytes(amount),
            timestamp_bytes(unlock_timestamp),
        ],
    }
}

/// The seeds with which a vault answers for its own address: the seeds of
/// the address followed by the one-byte salt found at derivation.
pub open spec fn signer_seeds(
    owner: Seq<u8>,
    amount: u64,
    unlock_timestamp: i64,
    mint: Option<Seq<u8>>,
    bump: u8,
) -> Seq<Seq<u8>> {
    vault_seeds(owner, amount, unlock_timestamp, mint).push(seq![bump])
}

/// The byte strings that a list of seeds holds.
pub open spec fn seed_list(seeds: Seq<Vec<u8>>) -> Seq<Seq<u8>> {
    seeds.map_values(|s: Vec<u8>| s@)
}

/// Builds the seeds of a vault address.
pub fn make_vault_seeds(
    owner: &Address,
    amount: u64,
    unlock_timestamp: i64,
    mint: &Option<Address>,
) -> (r: Vec<Vec<u8>>)
    ensures
        seed_list(r@) == vault_seeds(owner@, amount, unlock_timestamp, asset_view(*mint)),
{
    let mut tag: Vec<u8> = Vec::new();
    tag.push(118u8);
    tag.push(97u8);
    tag.push(117u8);
    tag.push(108u8);
    tag.push(116u8);
    assert(tag@ =~= vault_tag());
    let mut seeds: Vec<Vec<u8>> = Vec::new();
    seeds.push(tag);
    seeds.push(owner.to_vec());
    match mint {
        Some(m) => {
            seeds.push(m.to_vec());
        },
        None => {},
    }
    seeds.push(u64_to_le_bytes(amount));
    seeds.push(u64_to_le_bytes(twos_complement(unlock_timestamp)));
    assert(seed_list(seeds@) =~= vault_seeds(
        owner@,
        amount,
        unlock_timestamp,
        asset_view(*mint),
    ));
    seeds
}

/// Builds the seeds with which a vault answers for its own address.
pub fn make_signer_seeds(
    owner: &Address,
    amount: u64,
    unlock_timestamp: i64,
    mint: &Option<Address>,
    bump: u8,
) -> (r: Vec<Vec<u8>>)
    ensures
        seed_list(r@) == signer_seeds(owner@, amount, unlock_timestamp, asset_view(*mint), bump),
{
    let mut seeds = make_vault_seeds(owner, amount, unlock_timestamp, mint);
    let ghost before = seed_list(seeds@);
    let mut last: Vec<u8> = Vec::new();
    last.push(bump);
    assert(last@ =~= seq![bump]);
    seeds.push(last);
    assert(seed_list(seeds@) =~= before.push(seq![bump]));
    seeds
}

/// A timestamp read as an unsigned number of the same sixty-four bits.
pub fn twos_complement(t: i64) -> (r: u64)
    ensures
        r == t as u64,
{
    #[verifier::truncate]
    (t as u64)
}

/// The outside error of a refused derivation; it is carried through and
/// never looked into.
#[verifier::external_type_specification]
#[verifier::external_body]
pub struct ExPubkeyError(anchor_lang::solana_program::pubkey::PubkeyError);

/// What `Pubkey::create_program_address` yields for the given seeds and
/// program: the derived address, or nothing where it refuses the seeds.
pub uninterp spec fn program_address(seeds: Seq<Seq<u8>>, program_id: Seq<u8>) -> Option<Seq<u8>>;

/// What `Pubkey::try_find_program_address` yields for the given seeds and
/// program: the derived address and the salt it was found with, or nothing
/// where no salt gives a valid address.
pub uninterp spec fn found_program_address(seeds: Seq<Seq<u8>>, program_id: Seq<u8>) -> Option<
    (Seq<u8>, u8),
>;

/// Calls `Pubkey::create_program_address`. Believed of it: the outcome is a
/// function of the seeds and the program alone, named [`program_address`];
/// an error stands for a refusal.
#[verifier::external_body]
pub(crate) fn create_program_address(seeds: &Vec<Vec<u8>>, program_id: &Address) -> (r: Result<
    Address,
    anchor_lang::solana_program::pubkey::PubkeyError,
>)
    ensures
        match r {
            Ok(a) => program_address(seed_list(seeds@), program_id@) == Some(a@),
            Err(_) => program_address(seed_list(seeds@), program_id@).is_none(),
        },
{
    let parts: Vec<&[u8]> = seeds.iter().map(|s| s.as_slice()).collect();
    let program = anchor_lang::solana_program::pubkey::Pubkey::new_from_array(program_id.bytes);
    match anchor_lang::solana_program::pubkey::Pubkey::create_program_address(&parts, &program) {
        Ok(key) => Ok(Address { bytes: key.to_bytes() }),
        Err(e) => Err(e),
    }
}

/// Calls `Pubkey::try_find_program_address`. Believed of it: the outcome is
/// a function of the seeds and the program alone, named
/// [`found_program_address`]; and an address that it finds is the one that
/// `Pubkey::create_program_address` gives for the same seeds followed by the
/// salt, since that is how it searches.
#[verifier::external_body]
pub(crate) fn try_find_program_address(seeds: &Vec<Vec<u8>>, program_id: &Address) -> (r: Option<
    (Address, u8),
>)
    ensures
        match r {
            Some((a, bump)) => {
                &&& found_program_address(seed_list(seeds@), program_id@) == Some((a@, bump))
                &&& program_address(seed_list(seeds@).push(seq![bump]), program_id@) == Some(a@)
            },
            None => found_program_address(seed_list(seeds@), program_id@).is_none(),
        },
{
    let parts: Vec<&[u8]> = seeds.iter().map(|s| s.as_slice()).collect();
    let program = anchor_lang::solana_program::pubkey::Pubkey::new_from_array(program_id.bytes);
    match anchor_lang::solana_program::pubkey::Pubkey::try_find_program_address(&parts, &program) {
        Some((key, bump)) => Some((Address { bytes: key.to_bytes() }, bump)),
        None => None,
    }
}

/// The address of the vault that the given fields define under a program,
/// with the salt that makes it valid; nothing where no address can be had.
pub open spec fn derived(
    owner: Seq<u8>,
    amount: u64,
    unlock_timestamp: i64,
    mint: Option<Seq<u8>>,
    program_id: Seq<u8>,
) -> Option<(Seq<u8>, u8)> {
    found_program_address(vault_seeds(owner, amount, unlock_timestamp, mint), program_id)
}

/// The address that the given fields and a recorded salt give under a
/// program; nothing where the salt does not give a valid address.
pub open spec fn rederived(
    owner: Seq<u8>,
    amount: u64,
    unlock_timestamp: i64,
    mint: Option<Seq<u8>>,
    bump: u8,
    program_id: Seq<u8>,
) -> Option<Seq<u8>> {
    program_address(signer_seeds(owner, amount, unlock_timestamp, mint, bump), program_id)
}

/// What a derivation hands back, as plain values.
pub open spec fn derivation_view(r: Option<(Address, u8)>) -> Option<(Seq<u8>, u8)> {
    match r {
        None => None,
        Some((a, bump)) => Some((a@, bump)),
    }
}

/// Derives the address of the vault that the given fields define, and the
/// salt to record with it. An address that is found can be derived again
/// from the same fields and the salt.
pub fn derive(
    owner: &Address,
    amount: u64,
    unlock_timestamp: i64,
    mint: &Option<Address>,
    program_id: &Address,
) -> (r: Option<(Address, u8)>)
    ensures
        derivation_view(r) == derived(
            owner@,
            amount,
            unlock_timestamp,
            asset_view(*mint),
            program_id@,
        ),
        r matches Some((a, bump)) ==> rederived(
            owner@,
            amount,
            unlock_timestamp,
            asset_view(*mint),
            bump,
            program_id@,
        ) == Some(a@),
{
    let seeds = make_vault_seeds(owner, amount, unlock_timestamp, mint);
    try_find_program_address(&seeds, program_id)
}

/// Derives a vault's address again from its fields and the recorded salt,
/// without searching.
pub fn rederive(
    owner: &Address,
    amount: u64,
    unlock_timestamp: i64,
    mint: &Option<Address>,
    bump: u8,
    program_id: &Address,
) -> (r: Option<Address>)
    ensures
        asset_view(r) == rederived(
            owner@,
            amount,
            unlock_timestamp,
            asset_view(*mint),
            bump,
            program_id@,
        ),
{
    let seeds = make_signer_seeds(owner, amount, unlock_timestamp, mint, bump);
    match create_program_address(&seeds, program_id) {
        Ok(a) => Some(a),
        Err(_) => None,
    }
}

/// Vaults that differ in a defining field have different seeds: the seeds
/// determine the owner, the amount, the unlock timestamp and the asset.
pub proof fn lemma_vault_seeds_injective(
    owner1: Seq<u8>,
    amount1: u64,
    unlock1: i64,
    mint1: Option<Seq<u8>>,
    owner2: Seq<u8>,
    amount2: u64,
    unlock2: i64,
    mint2: Option<Seq<u8>>,
)
    requires
        vault_seeds(owner1, amount1, unlock1, mint1) == vault_seeds(
            owner2,
            amount2,
            unlock2,
            mint2,
        ),
    ensures
        owner1 == owner2,
        amount1 == amount2,
        unlock1 == unlock2,
        mint1 == mint2,
{
    let s1 = vault_seeds(owner1, amount1, unlock1, mint1);
    let s2 = vault_seeds(owner2, amount2, unlock2, mint2);
    assert(s1.len() == (if mint1.is_some() { 5nat } else { 4nat }));
    assert(s2.len() == (if mint2.is_some() { 5nat } else { 4nat }));
    assert(mint1.is_some() == mint2.is_some());
    assert(s1[1] == s2[1]);
    lemma_auto_spec_u64_to_from_le_bytes();
    assert(unlock1 as u64 == unlock2 as u64 ==> unlock1 == unlock2) by (bit_vector);
    if mint1.is_some() {
        assert(s1[2] == s2[2]);
        assert(s1[3] == s2[3]);
        assert(s1[4] == s2[4]);
    } else {
        assert(s1[2] == s2[2]);
        assert(s1[3] == s2[3]);
    }
}

} // verus!
