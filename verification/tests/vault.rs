use anchor_vault::address::{bytes_eq, Address};
use anchor_vault::derivation::derive_address;
use anchor_vault::error::{DeriveError, ErrorCode, TransferError};
use anchor_vault::gateway::{transfer, Authority};
use anchor_vault::ledger::{state_seed, vault_seed, VaultWorld};

const RENT_EXEMPT_ZERO_DATA: u64 = 890_880;

fn addr(fill: u8) -> Address {
    Address::new(vec![fill; 32])
}

fn fresh_world(owner_balance: u64) -> VaultWorld {
    VaultWorld::new(addr(1), addr(2), owner_balance)
}

fn escrow_balance(w: &VaultWorld) -> u64 {
    w.vault.as_ref().unwrap().escrow_balance
}

#[test]
fn scenario_full_lifecycle() {
    let mut w = fresh_world(1_000_000);
    assert_eq!(w.initialize(0), Ok(()));
    assert_eq!(escrow_balance(&w), 890_880);
    assert_eq!(w.owner_balance, 109_120);

    assert_eq!(w.deposit(500), Ok(()));
    assert_eq!(escrow_balance(&w), 891_380);
    assert_eq!(w.owner_balance, 108_620);

    // would leave the escrow below its rent-exempt floor
    assert_eq!(w.withdraw(891_380), Err(ErrorCode::InsufficientFunds));
    assert_eq!(escrow_balance(&w), 891_380);

    assert_eq!(w.withdraw(500), Ok(()));
    assert_eq!(escrow_balance(&w), 890_880);
    assert_eq!(w.owner_balance, 109_120);

    assert_eq!(w.close(), Ok(()));
    assert!(w.vault.is_none());
    assert_eq!(w.owner_balance, 1_000_000);
}

#[test]
fn initialize_then_close_conserves_owner_balance() {
    let mut w = fresh_world(2_000_000);
    assert_eq!(w.initialize(1_234), Ok(()));
    assert_eq!(w.owner_balance, 2_000_000 - RENT_EXEMPT_ZERO_DATA - 1_234);
    assert_eq!(w.vault.as_ref().unwrap().state_rent, 1_234);
    assert_eq!(w.close(), Ok(()));
    assert_eq!(w.owner_balance, 2_000_000);
    assert!(w.vault.is_none());
}

#[test]
fn deposit_then_withdraw_restores_escrow() {
    let mut w = fresh_world(1_500_000);
    assert_eq!(w.initialize(0), Ok(()));
    let before = escrow_balance(&w);
    let owner_before = w.owner_balance;
    assert_eq!(w.deposit(77_777), Ok(()));
    assert_eq!(w.withdraw(77_777), Ok(()));
    assert_eq!(escrow_balance(&w), before);
    assert_eq!(w.owner_balance, owner_before);
}

#[test]
fn withdraw_over_balance_fails() {
    let mut w = fresh_world(1_000_000);
    assert_eq!(w.initialize(0), Ok(()));
    assert_eq!(w.deposit(100), Ok(()));
    let escrow = escrow_balance(&w);
    assert_eq!(w.withdraw(escrow + 1), Err(ErrorCode::InsufficientFunds));
    // the floor itself cannot be withdrawn either
    assert_eq!(w.withdraw(escrow), Err(ErrorCode::InsufficientFunds));
    // exactly down to the floor is fine
    assert_eq!(w.withdraw(100), Ok(()));
    assert_eq!(escrow_balance(&w), RENT_EXEMPT_ZERO_DATA);
}

#[test]
fn second_initialize_fails_and_keeps_bumps() {
    let mut w = fresh_world(3_000_000);
    assert_eq!(w.initialize(0), Ok(()));
    let state = w.vault.as_ref().unwrap().state;
    assert_eq!(w.initialize(0), Err(ErrorCode::Unexpected));
    assert_eq!(w.initialize(500), Err(ErrorCode::Unexpected));
    assert_eq!(w.vault.as_ref().unwrap().state, state);
    assert_eq!(escrow_balance(&w), RENT_EXEMPT_ZERO_DATA);
}

#[test]
fn initialize_underfunded_fails_without_change() {
    let mut w = fresh_world(RENT_EXEMPT_ZERO_DATA - 1);
    assert_eq!(w.initialize(0), Err(ErrorCode::InsufficientFunds));
    assert!(w.vault.is_none());
    assert_eq!(w.owner_balance, RENT_EXEMPT_ZERO_DATA - 1);

    let mut w2 = fresh_world(RENT_EXEMPT_ZERO_DATA);
    assert_eq!(w2.initialize(1), Err(ErrorCode::InsufficientFunds));
    assert!(w2.vault.is_none());
    assert_eq!(w2.initialize(0), Ok(()));
    assert_eq!(w2.owner_balance, 0);
}

#[test]
fn operations_without_vault_fail() {
    let mut w = fresh_world(1_000_000);
    assert_eq!(w.deposit(1), Err(ErrorCode::Unexpected));
    assert_eq!(w.withdraw(1), Err(ErrorCode::Unexpected));
    assert_eq!(w.close(), Err(ErrorCode::Unexpected));
    assert_eq!(w.owner_balance, 1_000_000);
}

#[test]
fn deposit_underfunded_fails_without_change() {
    let mut w = fresh_world(1_000_000);
    assert_eq!(w.initialize(0), Ok(()));
    let owner_before = w.owner_balance;
    assert_eq!(w.deposit(owner_before + 1), Err(ErrorCode::InsufficientFunds));
    assert_eq!(w.owner_balance, owner_before);
    assert_eq!(escrow_balance(&w), RENT_EXEMPT_ZERO_DATA);
}

#[test]
fn close_twice_fails() {
    let mut w = fresh_world(1_000_000);
    assert_eq!(w.initialize(0), Ok(()));
    assert_eq!(w.close(), Ok(()));
    assert_eq!(w.close(), Err(ErrorCode::Unexpected));
    assert_eq!(w.owner_balance, 1_000_000);
}

#[test]
fn derivation_is_stable() {
    let program = addr(9);
    let ns = state_seed();
    let seed = vec![42u8; 32];
    let first = derive_address(&ns, &seed, &program).unwrap();
    let second = derive_address(&ns, &seed, &program).unwrap();
    assert!(bytes_eq(&first.0.bytes, &second.0.bytes));
    assert_eq!(first.1, second.1);
    assert_eq!(first.0.bytes.len(), 32);
}

#[test]
fn derivation_depends_on_namespace_and_seed() {
    let program = addr(9);
    let seed = vec![42u8; 32];
    let under_state = derive_address(&state_seed(), &seed, &program).unwrap();
    let under_vault = derive_address(&vault_seed(), &seed, &program).unwrap();
    assert!(!bytes_eq(&under_state.0.bytes, &under_vault.0.bytes));
    // the derived address is a hash, not the seed handed back
    assert!(!bytes_eq(&under_state.0.bytes, &seed));

    let other_seed = vec![43u8; 32];
    let other = derive_address(&state_seed(), &other_seed, &program).unwrap();
    assert!(!bytes_eq(&under_state.0.bytes, &other.0.bytes));
}

#[test]
fn derivation_exhausted_on_overlong_seed() {
    let program = addr(9);
    let seed = vec![42u8; 33];
    assert!(matches!(
        derive_address(&state_seed(), &seed, &program),
        Err(DeriveError::DerivationExhausted)
    ));
}

#[test]
fn transfer_moves_value_with_signature() {
    let program = addr(9);
    let from = addr(4);
    let mut from_balance: u64 = 1_000;
    let mut to_balance: u64 = 50;
    let authority = Authority::Signer { key: addr(4) };
    assert_eq!(
        transfer(&from, &mut from_balance, &mut to_balance, 300, &authority, &program),
        Ok(())
    );
    assert_eq!(from_balance, 700);
    assert_eq!(to_balance, 350);
}

#[test]
fn transfer_rejects_wrong_key() {
    let program = addr(9);
    let from = addr(4);
    let mut from_balance: u64 = 1_000;
    let mut to_balance: u64 = 50;
    let authority = Authority::Signer { key: addr(5) };
    assert_eq!(
        transfer(&from, &mut from_balance, &mut to_balance, 300, &authority, &program),
        Err(TransferError::Unauthorized)
    );
    assert_eq!(from_balance, 1_000);
    assert_eq!(to_balance, 50);
}

#[test]
fn transfer_rejects_overdraft() {
    let program = addr(9);
    let from = addr(4);
    let mut from_balance: u64 = 100;
    let mut to_balance: u64 = 0;
    let authority = Authority::Signer { key: addr(4) };
    assert_eq!(
        transfer(&from, &mut from_balance, &mut to_balance, 101, &authority, &program),
        Err(TransferError::InsufficientFunds)
    );
    assert_eq!(from_balance, 100);
}

#[test]
fn transfer_accepts_derived_authority() {
    let program = addr(9);
    let seed = vec![7u8; 32];
    let (derived, bump) = derive_address(&vault_seed(), &seed, &program).unwrap();
    let mut from_balance: u64 = 500;
    let mut to_balance: u64 = 0;
    let good = Authority::Derived { namespace: vault_seed(), seed: seed.clone(), bump };
    assert_eq!(
        transfer(&derived, &mut from_balance, &mut to_balance, 200, &good, &program),
        Ok(())
    );
    assert_eq!(from_balance, 300);

    let bad = Authority::Derived {
        namespace: vault_seed(),
        seed: seed.clone(),
        bump: bump.wrapping_add(1),
    };
    assert_eq!(
        transfer(&derived, &mut from_balance, &mut to_balance, 100, &bad, &program),
        Err(TransferError::Unauthorized)
    );
    assert_eq!(from_balance, 300);
}

#[test]
fn byte_helpers() {
    let a = vec![1u8, 2, 3];
    let b = vec![1u8, 2, 3];
    let c = vec![1u8, 2, 4];
    let d = vec![1u8, 2];
    assert!(bytes_eq(&a, &b));
    assert!(!bytes_eq(&a, &c));
    assert!(!bytes_eq(&a, &d));
    let cloned = addr(8).clone_address();
    assert!(bytes_eq(&cloned.bytes, &vec![8u8; 32]));
}
