use timelock_base_wallet_program::address::Address;
use timelock_base_wallet_program::error::{LedgerError, TimelockBaseWalletErrorCode};
use timelock_base_wallet_program::events::VaultInitialized;
use timelock_base_wallet_program::ledger::{HoldingKey, Ledger};
use timelock_base_wallet_program::table::Table;
use timelock_base_wallet_program::vault::Vault;

fn id(byte: u8) -> Address {
    Address { bytes: [byte; 32] }
}

#[test]
fn new_at_makes_the_record_of_its_fields() {
    let v = Vault::new_at(id(1), 1_000, 254, 3_600, Some(id(2)), 0).unwrap();
    assert_eq!(
        v,
        Vault { owner: id(1), amount: 1_000, bump: 254, unlock_timestamp: 3_600, mint: Some(id(2)) }
    );
    assert!(Vault::new_at(id(1), 1, 0, i64::MIN + 1, None, i64::MIN).is_ok());
}

#[test]
fn new_at_refuses_zero_amount_first() {
    assert_eq!(
        Vault::new_at(id(1), 0, 254, 3_600, None, 0),
        Err(TimelockBaseWalletErrorCode::AmountMustBeGreaterThanZero)
    );
    assert_eq!(
        Vault::new_at(id(1), 0, 254, -5, None, 0),
        Err(TimelockBaseWalletErrorCode::AmountMustBeGreaterThanZero)
    );
    assert_eq!(
        Vault::validate(0, 0, 0),
        Err(TimelockBaseWalletErrorCode::AmountMustBeGreaterThanZero)
    );
}

#[test]
fn new_at_refuses_unlock_not_in_future() {
    assert_eq!(
        Vault::new_at(id(1), 5, 254, 100, None, 100),
        Err(TimelockBaseWalletErrorCode::UnlockTimestampMustBeInFuture)
    );
    assert_eq!(
        Vault::new_at(id(1), 5, 254, 99, None, 100),
        Err(TimelockBaseWalletErrorCode::UnlockTimestampMustBeInFuture)
    );
    assert_eq!(Vault::validate(5, 101, 100), Ok(()));
}

#[test]
fn new_reads_the_clock_after_the_amount() {
    assert_eq!(
        Vault::new(id(1), 0, 254, i64::MAX, None),
        Err(TimelockBaseWalletErrorCode::AmountMustBeGreaterThanZero)
    );
    assert_eq!(
        Vault::new(id(1), 5, 254, i64::MAX, None),
        Err(TimelockBaseWalletErrorCode::Ledger(LedgerError::ClockUnavailable))
    );
}

#[test]
fn unlocked_from_the_unlock_time_on() {
    let v = Vault { owner: id(1), amount: 1, bump: 0, unlock_timestamp: 100, mint: None };
    assert!(!v.is_unlocked(99));
    assert!(v.is_unlocked(100));
    assert!(v.is_unlocked(101));
}

#[test]
fn bytes_of_a_native_record() {
    let v = Vault { owner: id(1), amount: 1_000, bump: 254, unlock_timestamp: 258, mint: None };
    let mut expected = vec![1u8; 32];
    expected.extend_from_slice(&[0xe8, 0x03, 0, 0, 0, 0, 0, 0]);
    expected.push(254);
    expected.extend_from_slice(&[0x02, 0x01, 0, 0, 0, 0, 0, 0]);
    expected.push(0);
    assert_eq!(expected.len(), 50);
    assert_eq!(v.to_bytes(), expected);
    assert_eq!(Vault::from_bytes(&expected), Some(v));
}

#[test]
fn bytes_of_a_token_record() {
    let v = Vault { owner: id(1), amount: u64::MAX, bump: 7, unlock_timestamp: -1, mint: Some(id(9)) };
    let mut expected = vec![1u8; 32];
    expected.extend_from_slice(&[0xff; 8]);
    expected.push(7);
    expected.extend_from_slice(&[0xff; 8]);
    expected.push(1);
    expected.extend_from_slice(&[9u8; 32]);
    assert_eq!(expected.len(), 82);
    assert_eq!(v.to_bytes(), expected);
    assert_eq!(Vault::from_bytes(&expected), Some(v));
}

#[test]
fn bytes_that_hold_no_record() {
    let native = Vault { owner: id(1), amount: 5, bump: 1, unlock_timestamp: 9, mint: None };
    let token = Vault { mint: Some(id(9)), ..native };
    let mut bytes = native.to_bytes();
    bytes[49] = 1;
    assert_eq!(Vault::from_bytes(&bytes), None);
    bytes[49] = 2;
    assert_eq!(Vault::from_bytes(&bytes), None);
    let mut bytes = token.to_bytes();
    bytes[49] = 0;
    assert_eq!(Vault::from_bytes(&bytes), None);
    assert_eq!(Vault::from_bytes(&[]), None);
    assert_eq!(Vault::from_bytes(&native.to_bytes()[..49]), None);
    assert_eq!(Vault::from_bytes(&token.to_bytes()[..81]), None);
    let mut long = token.to_bytes();
    long.push(0);
    assert_eq!(Vault::from_bytes(&long), None);
}

#[test]
fn records_survive_their_bytes() {
    for amount in [1u64, 255, 256, 1 << 40, u64::MAX] {
        for unlock in [i64::MIN, -1, 0, 1, 1_700_000_000, i64::MAX] {
            for mint in [None, Some(id(3))] {
                let v = Vault { owner: id(8), amount, bump: 200, unlock_timestamp: unlock, mint };
                assert_eq!(Vault::from_bytes(&v.to_bytes()), Some(v));
            }
        }
    }
}

#[test]
fn event_of_a_record() {
    let v = Vault { owner: id(1), amount: 5, bump: 1, unlock_timestamp: 9, mint: Some(id(4)) };
    assert_eq!(
        VaultInitialized::of(&v),
        VaultInitialized { owner: id(1), amount: 5, unlock_timestamp: 9, mint: Some(id(4)) }
    );
}

#[test]
fn table_holds_one_value_per_key() {
    let mut t: Table<Address, u64> = Table::new();
    assert_eq!(t.get(&id(1)), None);
    assert!(!t.contains(&id(1)));
    t.set(id(1), 10);
    t.set(id(2), 20);
    t.set(id(3), 30);
    t.set(id(1), 11);
    assert_eq!(t.get(&id(1)), Some(11));
    assert_eq!(t.get(&id(2)), Some(20));
    assert_eq!(t.remove(&id(1)), Some(11));
    assert_eq!(t.remove(&id(1)), None);
    assert_eq!(t.get(&id(1)), None);
    assert_eq!(t.get(&id(2)), Some(20));
    assert_eq!(t.get(&id(3)), Some(30));
    assert!(t.contains(&id(3)));
}

#[test]
fn table_keys_of_holding_accounts() {
    let mut t: Table<HoldingKey, u64> = Table::new();
    t.set(HoldingKey { owner: id(1), mint: id(2) }, 5);
    assert_eq!(t.get(&HoldingKey { owner: id(1), mint: id(2) }), Some(5));
    assert_eq!(t.get(&HoldingKey { owner: id(2), mint: id(1) }), None);
    assert_eq!(t.get(&HoldingKey { owner: id(1), mint: id(1) }), None);
}

#[test]
fn ledger_starts_empty() {
    let ledger = Ledger::new(id(200), 77);
    assert_eq!(ledger.now(), 77);
    assert_eq!(ledger.program_id(), id(200));
    assert_eq!(ledger.balance(&id(1)), 0);
    assert_eq!(ledger.decimals(&id(1)), None);
    assert_eq!(ledger.token_balance(&id(1), &id(2)), None);
    assert_eq!(ledger.vault(&id(1)), None);
}

#[test]
fn ledger_deposits_add_up() {
    let mut ledger = Ledger::new(id(200), 77);
    assert_eq!(ledger.deposit(id(1), 5), Ok(()));
    assert_eq!(ledger.deposit(id(1), 6), Ok(()));
    assert_eq!(ledger.balance(&id(1)), 11);
    assert_eq!(ledger.deposit(id(1), u64::MAX - 10), Err(LedgerError::BalanceOverflow));
    assert_eq!(ledger.balance(&id(1)), 11);
    assert_eq!(ledger.deposit(id(1), u64::MAX - 11), Ok(()));
    assert_eq!(ledger.balance(&id(1)), u64::MAX);
    assert_eq!(ledger.balance(&id(2)), 0);
}

#[test]
fn ledger_registers_assets_once() {
    let mut ledger = Ledger::new(id(200), 77);
    assert_eq!(ledger.register_mint(id(7), 6), Ok(()));
    assert_eq!(ledger.register_mint(id(7), 9), Err(LedgerError::AccountInUse));
    assert_eq!(ledger.decimals(&id(7)), Some(6));
}

#[test]
fn ledger_holding_accounts() {
    let mut ledger = Ledger::new(id(200), 77);
    assert_eq!(ledger.open_token_account(id(1), id(7)), Err(LedgerError::UnknownMint));
    assert_eq!(ledger.mint_to(id(1), id(7), 5), Err(LedgerError::MissingTokenAccount));
    ledger.register_mint(id(7), 6).unwrap();
    assert_eq!(ledger.open_token_account(id(1), id(7)), Ok(()));
    assert_eq!(ledger.open_token_account(id(1), id(7)), Err(LedgerError::AccountInUse));
    assert_eq!(ledger.token_balance(&id(1), &id(7)), Some(0));
    assert_eq!(ledger.mint_to(id(1), id(7), 5), Ok(()));
    assert_eq!(ledger.mint_to(id(1), id(7), u64::MAX - 4), Err(LedgerError::BalanceOverflow));
    assert_eq!(ledger.token_balance(&id(1), &id(7)), Some(5));
    assert_eq!(ledger.token_balance(&id(2), &id(7)), None);
}

#[test]
fn ledger_clock_can_be_set() {
    let mut ledger = Ledger::new(id(200), 77);
    ledger.set_time(-3);
    assert_eq!(ledger.now(), -3);
}

#[test]
fn withdrawal_is_checked_for_time_then_asset() {
    let v = Vault { owner: id(1), amount: 1, bump: 0, unlock_timestamp: 100, mint: Some(id(7)) };
    assert_eq!(v.check_withdrawal(99, &Some(id(7))), Err(TimelockBaseWalletErrorCode::VaultLocked));
    assert_eq!(v.check_withdrawal(99, &None), Err(TimelockBaseWalletErrorCode::VaultLocked));
    assert_eq!(v.check_withdrawal(100, &Some(id(7))), Ok(()));
    assert_eq!(
        v.check_withdrawal(100, &Some(id(8))),
        Err(TimelockBaseWalletErrorCode::InvalidVaultMint)
    );
    assert_eq!(v.check_withdrawal(100, &None), Err(TimelockBaseWalletErrorCode::InvalidVaultMint));
    let native = Vault { mint: None, ..v };
    assert_eq!(native.check_withdrawal(100, &None), Ok(()));
    assert_eq!(
        native.check_withdrawal(100, &Some(id(7))),
        Err(TimelockBaseWalletErrorCode::InvalidVaultMint)
    );
}
