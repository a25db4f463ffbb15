use vm_env::address::Address;
use vm_env::key::ed25519::pk_key;
use vm_env::storage::{Key, Storage, RESERVED_ADDRESS_PREFIX};

fn key_of(encoded: &str) -> Key {
    pk_key(&Address::decode(encoded).expect("a valid encoding"))
}

#[test]
fn new_store_holds_nothing() {
    let storage = Storage::new();
    let key = key_of("a1owner");
    assert_eq!(storage.read_pre(&key), None);
    assert_eq!(storage.read_post(&key), None);
}

#[test]
fn write_changes_the_post_state_only() {
    let mut storage = Storage::new();
    let key = key_of("a1owner");
    storage.write(&key, vec![1, 2, 3]);
    assert_eq!(storage.read_pre(&key), None);
    assert_eq!(storage.read_post(&key), Some(vec![1, 2, 3]));
    assert_eq!(storage.read_post(&key_of("a1other")), None);
}

#[test]
fn commit_makes_the_post_state_the_pre_state() {
    let mut storage = Storage::new();
    let key = key_of("a1owner");
    storage.write(&key, vec![1, 2, 3]);
    storage.commit();
    assert_eq!(storage.read_pre(&key), Some(vec![1, 2, 3]));
    assert_eq!(storage.read_post(&key), Some(vec![1, 2, 3]));
}

#[test]
fn the_last_write_of_a_transaction_stands() {
    let mut storage = Storage::new();
    let key = key_of("a1owner");
    storage.write(&key, vec![1]);
    storage.write(&key, vec![2, 2]);
    assert_eq!(storage.read_post(&key), Some(vec![2, 2]));
    storage.commit();
    assert_eq!(storage.read_pre(&key), Some(vec![2, 2]));
}

#[test]
fn a_write_over_a_committed_value_waits_for_the_commit() {
    let mut storage = Storage::new();
    let key = key_of("a1owner");
    let other = key_of("a1other");
    storage.write(&key, vec![1]);
    storage.write(&other, vec![9]);
    storage.commit();
    storage.write(&key, vec![2]);
    assert_eq!(storage.read_pre(&key), Some(vec![1]));
    assert_eq!(storage.read_post(&key), Some(vec![2]));
    assert_eq!(storage.read_post(&other), Some(vec![9]));
    storage.commit();
    assert_eq!(storage.read_pre(&key), Some(vec![2]));
    assert_eq!(storage.read_pre(&other), Some(vec![9]));
}

#[test]
fn commit_without_writes_changes_nothing() {
    let mut storage = Storage::new();
    let key = key_of("a1owner");
    storage.write(&key, Vec::new());
    storage.commit();
    storage.commit();
    assert_eq!(storage.read_pre(&key), Some(Vec::new()));
    assert_eq!(storage.read_post(&key), Some(Vec::new()));
}

#[test]
fn key_text_and_clone() {
    let key = key_of("a1owner");
    assert_eq!(key.to_string(), "#a1owner/ed25519_pk");
    assert_eq!(key.to_string().chars().next(), Some(RESERVED_ADDRESS_PREFIX));
    assert_eq!(key.clone(), key);
    assert_eq!(key.clone().to_string(), key.to_string());
}
