use scroll_revm::bytecode::Bytecode;
use scroll_revm::digest::{keccak_empty, poseidon_empty, CodeHashScheme};
use scroll_revm::state::{Account, AccountInfo, AccountStatus, EvmStorage, EvmStorageSlot};
use scroll_revm::word::{B256, U256};

#[test]
fn account_is_empty_balance() {
    let mut account = Account::default();
    assert!(account.is_empty());

    account.info.balance = U256::from(1);
    assert!(!account.is_empty());

    account.info.balance = U256::zero();
    assert!(account.is_empty());
}

#[test]
fn account_is_empty_nonce() {
    let mut account = Account::default();
    assert!(account.is_empty());

    account.info.nonce = 1;
    assert!(!account.is_empty());

    account.info.nonce = 0;
    assert!(account.is_empty());
}

#[test]
fn account_is_empty_code_hash() {
    let mut account = Account::default();
    assert!(account.is_empty());

    account.info.code_hash = [1; 32].into();
    assert!(!account.is_empty());

    account.info.code_hash = [0; 32].into();
    assert!(account.is_empty());

    account.info.code_hash = poseidon_empty();
    assert!(account.is_empty());
}

#[test]
fn empty_code_hash_follows_the_scheme() {
    let mut info = AccountInfo::default_with(CodeHashScheme::Keccak);
    assert!(info.code_hash == keccak_empty());
    assert!(info.is_empty());
    info.code_hash = poseidon_empty();
    assert!(!info.is_empty());
    info.set_code_rehash_slow(None);
    assert!(info.code_hash == keccak_empty());
    assert!(info.is_empty_code_hash());

    let mut info = AccountInfo::default();
    assert_eq!(info.code_hash_scheme, CodeHashScheme::Poseidon);
    assert!(info.code_hash == poseidon_empty());
    info.code_hash = keccak_empty();
    assert!(!info.is_empty_code_hash());
    info.set_code_rehash_slow(None);
    assert!(info.code_hash == poseidon_empty());
    assert!(info.keccak_code_hash == keccak_empty());
}

#[test]
fn from_bytecode_takes_the_code_hashes() {
    let code = Bytecode::new_raw(vec![0x00], CodeHashScheme::Keccak, B256::zero());
    let hash = code.hash();
    let info = AccountInfo::from_bytecode(code);
    assert!(info.code_hash == hash);
    assert!(info.keccak_code_hash == hash);
    assert_eq!(info.nonce, 1);
    assert_eq!(info.code_size, 1);
    assert_eq!(info.code_hash_scheme, CodeHashScheme::Keccak);
}

#[test]
fn account_state() {
    let mut account = Account::default();

    assert!(!account.is_touched());
    assert!(!account.is_selfdestructed());

    account.mark_touch();
    assert!(account.is_touched());
    assert!(!account.is_selfdestructed());

    account.mark_selfdestruct();
    assert!(account.is_touched());
    assert!(account.is_selfdestructed());

    account.unmark_selfdestruct();
    assert!(account.is_touched());
    assert!(!account.is_selfdestructed());
}

#[test]
fn account_is_cold() {
    let mut account = Account::default();

    // Account is not cold by default
    assert!(!account.status.contains(AccountStatus::cold()));

    // When marking warm account as warm again, it should return false
    assert!(!account.mark_warm());

    // Mark account as cold
    account.mark_cold();

    // Account is cold
    assert!(account.status.contains(AccountStatus::cold()));

    // When marking cold account as warm, it should return true
    assert!(account.mark_warm());
}

#[test]
fn mark_warm_twice_on_cold_account() {
    let mut account = Account::default();
    account.mark_touch();
    account.mark_cold();
    assert!(account.mark_warm());
    assert!(!account.status.contains(AccountStatus::cold()));
    assert!(!account.mark_warm());
    assert!(!account.status.contains(AccountStatus::cold()));
    assert!(account.is_touched());
    assert_eq!(account.status.bits(), 0b0000_0100);
}

#[test]
fn flags_combine_freely() {
    let mut account = Account::new_not_existing();
    assert!(account.is_loaded_as_not_existing());
    account.mark_created();
    account.mark_touch();
    account.mark_selfdestruct();
    account.mark_cold();
    assert_eq!(account.status.bits(), 0b0001_1111);
    account.unmark_created();
    assert!(!account.is_created());
    assert!(account.is_touched() && account.is_selfdestructed() && account.is_loaded_as_not_existing());
    account.unmark_touch();
    assert_eq!(account.status.bits(), 0b0001_1010);
    assert_eq!(AccountStatus::default().bits(), 0);
}

#[test]
fn is_empty_needs_all_three() {
    let mut info = AccountInfo::default();
    assert!(info.is_empty());
    assert!(!info.is_existing());
    info.balance = U256::from(7);
    info.nonce = 3;
    assert!(!info.is_empty());
    info.balance = U256::zero();
    assert!(!info.is_empty());
    info.nonce = 0;
    info.code_hash = [9; 32].into();
    assert!(!info.is_empty());
    assert!(info.is_existing());
    assert!(!info.has_no_code_and_nonce());
}

#[test]
fn account_info_equality_ignores_cached_code() {
    let a = AccountInfo::from_balance(U256::from(5));
    let mut b = AccountInfo::from_balance(U256::from(5));
    b.take_bytecode();
    b.code_size = 12;
    assert!(a == b);
    b.nonce = 1;
    assert!(a != b);
}

#[test]
fn storage_slot_warm_and_changed() {
    let mut slot = EvmStorageSlot::new(U256::from(3));
    assert!(!slot.is_changed());
    assert_eq!(slot.original_value(), U256::from(3));
    slot.mark_cold();
    assert!(slot.mark_warm());
    assert!(!slot.mark_warm());
    assert!(!slot.is_cold);
    let changed = EvmStorageSlot::new_changed(U256::from(3), U256::from(4));
    assert!(changed.is_changed());
    assert_eq!(changed.present_value(), U256::from(4));
}

#[test]
fn changed_storage_slots_filters_unchanged() {
    let mut account = Account::default();
    account.storage.insert(U256::from(1), EvmStorageSlot::new(U256::from(10)));
    account.storage.insert(U256::from(2), EvmStorageSlot::new_changed(U256::from(10), U256::from(11)));
    account.storage.insert(U256::from(3), EvmStorageSlot::new(U256::from(12)));
    assert_eq!(
        account.changed_storage_slots(),
        vec![(U256::from(2), EvmStorageSlot::new_changed(U256::from(10), U256::from(11)))]
    );
    // Overwriting key 3 with a changed slot keeps one entry per key.
    account.storage.insert(U256::from(3), EvmStorageSlot::new_changed(U256::from(12), U256::from(0)));
    assert_eq!(account.storage.len(), 3);
    assert_eq!(account.changed_storage_slots().len(), 2);
    assert_eq!(account.storage.get(U256::from(3)), Some(EvmStorageSlot::new_changed(U256::from(12), U256::from(0))));
    assert_eq!(account.storage.get(U256::from(4)), None);
}

#[test]
fn empty_storage_has_no_changes() {
    let storage = EvmStorage::new();
    assert_eq!(storage.changed().len(), 0);
    let account = Account::from_info(AccountInfo::default());
    assert!(account.changed_storage_slots().is_empty());
    let h: B256 = [0; 32].into();
    assert!(h == B256::zero());
}
