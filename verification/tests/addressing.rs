use anchor_lang::prelude::Pubkey;
use timelock_base_wallet_program::address::{
    make_signer_seeds, make_vault_seeds, rederive, same_asset, twos_complement, Address,
};
use timelock_base_wallet_program::instructions::sol::initialize::InitializeSolLock;
use timelock_base_wallet_program::instructions::spl::initialize::InitializeSplLock;
use timelock_base_wallet_program::ledger::Ledger;
use timelock_base_wallet_program::lifecycle::MintAccount;
use timelock_base_wallet_program::{initialize_sol_lock, initialize_spl_lock};

fn id(byte: u8) -> Address {
    Address { bytes: [byte; 32] }
}

#[test]
fn vault_seeds_of_a_native_lock() {
    let seeds = make_vault_seeds(&id(3), 1_000, 258, &None);
    assert_eq!(
        seeds,
        vec![
            b"vault".to_vec(),
            vec![3u8; 32],
            vec![0xe8, 0x03, 0, 0, 0, 0, 0, 0],
            vec![0x02, 0x01, 0, 0, 0, 0, 0, 0],
        ]
    );
}

#[test]
fn vault_seeds_of_a_token_lock() {
    let seeds = make_vault_seeds(&id(3), 1, -2, &Some(id(9)));
    assert_eq!(
        seeds,
        vec![
            b"vault".to_vec(),
            vec![3u8; 32],
            vec![9u8; 32],
            vec![1, 0, 0, 0, 0, 0, 0, 0],
            vec![0xfe, 0xff, 0xff, 0xff, 0xff, 0xff, 0xff, 0xff],
        ]
    );
}

#[test]
fn signer_seeds_end_with_the_salt() {
    let seeds = make_signer_seeds(&id(3), 1, 2, &None, 254);
    assert_eq!(seeds.len(), 5);
    assert_eq!(seeds[..4].to_vec(), make_vault_seeds(&id(3), 1, 2, &None));
    assert_eq!(seeds[4], vec![254u8]);
}

#[test]
fn timestamps_are_read_in_twos_complement() {
    assert_eq!(twos_complement(0), 0);
    assert_eq!(twos_complement(5), 5);
    assert_eq!(twos_complement(-1), u64::MAX);
    assert_eq!(twos_complement(i64::MIN), 1u64 << 63);
}

#[test]
fn derive_is_the_program_derived_address() {
    let owner = id(3);
    let program = id(77);
    let amount: u64 = 1_000;
    let unlock: i64 = 1_700_003_600;
    let (address, bump) = timelock_base_wallet_program::address::derive(&owner, amount, unlock, &None, &program).unwrap();
    let (expected, expected_bump) = Pubkey::find_program_address(
        &[b"vault", &owner.bytes, &amount.to_le_bytes(), &unlock.to_le_bytes()],
        &Pubkey::new_from_array(program.bytes),
    );
    assert_eq!(address.bytes, expected.to_bytes());
    assert_eq!(bump, expected_bump);
    assert_ne!(address, owner);
    assert_ne!(address, program);
}

#[test]
fn derive_of_a_token_vault_takes_the_asset_in() {
    let owner = id(3);
    let mint = id(9);
    let program = id(77);
    let amount: u64 = 500;
    let unlock: i64 = 1_700_000_010;
    let (address, bump) = timelock_base_wallet_program::address::derive(&owner, amount, unlock, &Some(mint), &program).unwrap();
    let (expected, expected_bump) = Pubkey::find_program_address(
        &[b"vault", &owner.bytes, &mint.bytes, &amount.to_le_bytes(), &unlock.to_le_bytes()],
        &Pubkey::new_from_array(program.bytes),
    );
    assert_eq!(address.bytes, expected.to_bytes());
    assert_eq!(bump, expected_bump);
    let (native, _) = timelock_base_wallet_program::address::derive(&owner, amount, unlock, &None, &program).unwrap();
    assert_ne!(address, native);
}

#[test]
fn derive_is_deterministic_and_tells_tuples_apart() {
    let program = id(77);
    let first = timelock_base_wallet_program::address::derive(&id(3), 10, 20, &None, &program).unwrap();
    assert_eq!(timelock_base_wallet_program::address::derive(&id(3), 10, 20, &None, &program).unwrap(), first);
    assert_ne!(timelock_base_wallet_program::address::derive(&id(4), 10, 20, &None, &program).unwrap().0, first.0);
    assert_ne!(timelock_base_wallet_program::address::derive(&id(3), 11, 20, &None, &program).unwrap().0, first.0);
    assert_ne!(timelock_base_wallet_program::address::derive(&id(3), 10, 21, &None, &program).unwrap().0, first.0);
    assert_ne!(timelock_base_wallet_program::address::derive(&id(3), 10, 20, &Some(id(5)), &program).unwrap().0, first.0);
    assert_ne!(timelock_base_wallet_program::address::derive(&id(3), 10, 20, &None, &id(78)).unwrap().0, first.0);
}

#[test]
fn rederive_gives_the_derived_address_back() {
    let owner = id(3);
    let program = id(77);
    for mint in [None, Some(id(9))] {
        let (address, bump) = timelock_base_wallet_program::address::derive(&owner, 42, 4_242, &mint, &program).unwrap();
        assert_eq!(rederive(&owner, 42, 4_242, &mint, bump, &program), Some(address));
        assert_ne!(rederive(&id(4), 42, 4_242, &mint, bump, &program), Some(address));
    }
}

#[test]
fn rederive_is_create_program_address() {
    let owner = id(3);
    let program = id(77);
    let amount: u64 = 42;
    let unlock: i64 = -7;
    for bump in [0u8, 1, 100, 254, 255] {
        let expected = Pubkey::create_program_address(
            &[b"vault", &owner.bytes, &amount.to_le_bytes(), &unlock.to_le_bytes(), &[bump]],
            &Pubkey::new_from_array(program.bytes),
        )
        .ok()
        .map(|key| Address { bytes: key.to_bytes() });
        assert_eq!(rederive(&owner, amount, unlock, &None, bump, &program), expected);
    }
}

#[test]
fn lock_places_the_vault_at_the_derived_address() {
    let owner = id(1);
    let program = id(200);
    let mut ledger = Ledger::new(program, 50);
    ledger.deposit(owner, 100).unwrap();
    let vault =
        initialize_sol_lock(&mut ledger, &InitializeSolLock { signer: owner }, 100, 60).unwrap();
    let (address, bump) = timelock_base_wallet_program::address::derive(&owner, 100, 60, &None, &program).unwrap();
    assert_eq!(vault, address);
    assert_eq!(ledger.vault(&vault).unwrap().bump, bump);

    let mint = id(7);
    ledger.register_mint(mint, 0).unwrap();
    ledger.open_token_account(owner, mint).unwrap();
    ledger.mint_to(owner, mint, 9).unwrap();
    let accounts = InitializeSplLock { signer: owner, mint: MintAccount { key: mint, decimals: 0 } };
    let vault = initialize_spl_lock(&mut ledger, &accounts, 9, 60).unwrap();
    let (address, bump) = timelock_base_wallet_program::address::derive(&owner, 9, 60, &Some(mint), &program).unwrap();
    assert_eq!(vault, address);
    assert_eq!(ledger.vault(&vault).unwrap().bump, bump);
    assert_eq!(ledger.vault(&vault).unwrap().mint, Some(mint));
}

#[test]
fn addresses_compare_by_their_bytes() {
    let mut bytes = [5u8; 32];
    let a = Address::new(bytes);
    assert!(a.same(&id(5)));
    bytes[31] = 6;
    assert!(!Address::new(bytes).same(&a));
    assert_eq!(a.to_vec(), vec![5u8; 32]);
    assert_eq!(Address::from_slice(&[5u8; 32]), Some(a));
    assert_eq!(Address::from_slice(&[5u8; 31]), None);
    assert_eq!(Address::from_slice(&[5u8; 33]), None);
    assert!(same_asset(&None, &None));
    assert!(same_asset(&Some(a), &Some(id(5))));
    assert!(!same_asset(&Some(a), &None));
    assert!(!same_asset(&None, &Some(a)));
    assert!(!same_asset(&Some(a), &Some(id(6))));
}
