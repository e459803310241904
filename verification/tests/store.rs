use proof_of_existence::{AccountId, ClaimRecord, ClaimRegistry, Config, Fingerprint};

#[derive(Debug)]
struct NoBytes;

impl Config for NoBytes {
    const MAX_BYTES_IN_HASH: u32 = 0;
}

#[derive(Debug)]
struct ThreeBytes;

impl Config for ThreeBytes {
    const MAX_BYTES_IN_HASH: u32 = 3;
}

#[derive(Debug)]
struct FourBytes;

impl Config for FourBytes {
    const MAX_BYTES_IN_HASH: u32 = 4;
}

fn key(bytes: &[u8]) -> Fingerprint<FourBytes> {
    Fingerprint::new(bytes.to_vec()).unwrap()
}

fn record(owner: &[u8], height: u64) -> ClaimRecord {
    ClaimRecord { owner: AccountId::new(owner.to_vec()), height }
}

#[test]
fn fingerprint_up_to_the_bound_is_accepted() {
    assert_eq!(Fingerprint::<ThreeBytes>::new(vec![]).unwrap().len(), 0);
    assert_eq!(Fingerprint::<ThreeBytes>::new(vec![1, 2]).unwrap().as_slice(), &[1u8, 2]);
    let full = Fingerprint::<ThreeBytes>::new(vec![1, 2, 3]).unwrap();
    assert_eq!(full.len(), 3);
    assert_eq!(full.as_slice(), &[1u8, 2, 3]);
}

#[test]
fn fingerprint_above_the_bound_is_handed_back() {
    assert_eq!(Fingerprint::<ThreeBytes>::new(vec![1, 2, 3, 4]).err(), Some(vec![1u8, 2, 3, 4]));
    assert_eq!(Fingerprint::<NoBytes>::new(vec![9]).err(), Some(vec![9u8]));
    assert!(Fingerprint::<NoBytes>::new(vec![]).is_ok());
}

#[test]
fn fingerprint_bound_comes_from_the_configuration() {
    assert!(Fingerprint::<ThreeBytes>::new(vec![1, 2, 3]).is_ok());
    assert!(Fingerprint::<FourBytes>::new(vec![1, 2, 3, 4]).is_ok());
    assert_eq!(Fingerprint::<FourBytes>::new(vec![1, 2, 3, 4, 5]).err(), Some(vec![1u8, 2, 3, 4, 5]));
}

#[test]
fn fingerprints_compare_byte_by_byte() {
    assert!(key(&[1, 2]) == key(&[1, 2]));
    assert!(key(&[1, 2]) != key(&[1, 3]));
    assert!(key(&[1, 2]) != key(&[1]));
    assert!(key(&[]) == key(&[]));
    let first = key(&[4, 5, 6]);
    let copy = first.clone();
    assert!(copy == first);
    assert_eq!(copy.as_slice(), &[4u8, 5, 6]);
}

#[test]
fn accounts_compare_byte_by_byte() {
    let alice = AccountId::new(b"Alice".to_vec());
    assert!(alice == AccountId::new(b"Alice".to_vec()));
    assert!(alice != AccountId::new(b"Bob".to_vec()));
    assert!(alice != AccountId::new(b"Alic".to_vec()));
    assert!(alice != AccountId::new(b"Blice".to_vec()));
    let copy = alice.clone();
    assert!(copy == alice);
    assert_eq!(copy.as_slice(), b"Alice");
}

#[test]
fn claim_record_clone_keeps_owner_and_height() {
    let first = record(b"Alice", 12);
    let copy = first.clone();
    assert_eq!(copy.owner.as_slice(), b"Alice");
    assert_eq!(copy.height, 12);
}

#[test]
fn empty_registry_holds_nothing() {
    let registry = ClaimRegistry::<FourBytes>::new();
    assert!(registry.is_empty());
    assert_eq!(registry.len(), 0);
    assert!(!registry.contains(&key(&[1])));
    assert!(registry.get(&key(&[1])).is_none());
}

#[test]
fn registry_insert_then_get() {
    let mut registry = ClaimRegistry::<FourBytes>::new();
    registry.insert(key(&[1]), record(b"Alice", 10));
    registry.insert(key(&[2]), record(b"Bob", 11));
    assert_eq!(registry.len(), 2);
    assert!(!registry.is_empty());
    assert!(registry.contains(&key(&[1])));
    assert!(registry.contains(&key(&[2])));
    assert!(!registry.contains(&key(&[3])));
    let first = registry.get(&key(&[1])).unwrap();
    assert_eq!(first.owner.as_slice(), b"Alice");
    assert_eq!(first.height, 10);
    let second = registry.get(&key(&[2])).unwrap();
    assert_eq!(second.owner.as_slice(), b"Bob");
    assert_eq!(second.height, 11);
}

#[test]
fn registry_insert_replaces_the_record_of_a_present_key() {
    let mut registry = ClaimRegistry::<FourBytes>::new();
    registry.insert(key(&[1]), record(b"Alice", 10));
    registry.insert(key(&[2]), record(b"Bob", 11));
    registry.insert(key(&[1]), record(b"Carol", 12));
    assert_eq!(registry.len(), 2);
    let replaced = registry.get(&key(&[1])).unwrap();
    assert_eq!(replaced.owner.as_slice(), b"Carol");
    assert_eq!(replaced.height, 12);
    let kept = registry.get(&key(&[2])).unwrap();
    assert_eq!(kept.owner.as_slice(), b"Bob");
    assert_eq!(kept.height, 11);
}

#[test]
fn registry_remove_takes_out_one_key() {
    let mut registry = ClaimRegistry::<FourBytes>::new();
    registry.insert(key(&[1]), record(b"Alice", 10));
    registry.insert(key(&[2]), record(b"Bob", 11));
    registry.insert(key(&[3]), record(b"Carol", 12));
    registry.remove(&key(&[2]));
    assert_eq!(registry.len(), 2);
    assert!(!registry.contains(&key(&[2])));
    assert_eq!(registry.get(&key(&[1])).unwrap().owner.as_slice(), b"Alice");
    assert_eq!(registry.get(&key(&[3])).unwrap().owner.as_slice(), b"Carol");
    assert_eq!(registry.get(&key(&[3])).unwrap().height, 12);
}

#[test]
fn registry_remove_of_an_absent_key_changes_nothing() {
    let mut registry = ClaimRegistry::<FourBytes>::new();
    registry.remove(&key(&[1]));
    assert!(registry.is_empty());
    registry.insert(key(&[1]), record(b"Alice", 10));
    registry.remove(&key(&[2]));
    assert_eq!(registry.len(), 1);
    assert_eq!(registry.get(&key(&[1])).unwrap().height, 10);
}
