use ton_core::pending::PendingMessageState;
use ton_core::pending::PendingMessagesCache;
use ton_core::uint256::UInt256;

fn id(byte: u8) -> UInt256 {
    UInt256 { bytes: [byte; 32] }
}

fn state(expired_at: u32, tx: u64) -> PendingMessageState<u64> {
    PendingMessageState { expired_at, tx: Some(tx) }
}

#[test]
fn new_table_is_empty() {
    let cache: PendingMessagesCache<u64> = PendingMessagesCache::new();
    assert!(cache.get(&id(1), &id(2)).is_none());
}

#[test]
fn entry_is_found_by_account_and_hash() {
    let mut cache = PendingMessagesCache::new();
    cache.insert(id(1), id(2), state(10, 100));
    let found = cache.get(&id(1), &id(2)).unwrap();
    assert_eq!(found.expired_at, 10);
    assert_eq!(found.tx, Some(100));
    assert!(cache.get(&id(2), &id(1)).is_none());
    assert!(cache.get(&id(1), &id(1)).is_none());
}

#[test]
fn entries_of_one_bucket_are_kept_apart() {
    // The three hashes begin with the same eight bytes, and so does the last,
    // which is the first again with another account.
    let (first, mut second, mut third) = (id(7), id(7), id(7));
    second.bytes[8] = 8;
    third.bytes[31] = 9;
    let mut cache = PendingMessagesCache::new();
    cache.insert(id(1), first, state(10, 100));
    cache.insert(id(1), second, state(20, 200));
    cache.insert(id(1), third, state(30, 300));
    cache.insert(id(2), first, state(40, 400));

    assert_eq!(cache.remove(&id(1), &second).unwrap().expired_at, 20);
    assert!(cache.remove(&id(1), &second).is_none());
    assert_eq!(cache.get(&id(1), &first).unwrap().expired_at, 10);
    assert_eq!(cache.get(&id(1), &third).unwrap().expired_at, 30);
    assert_eq!(cache.get(&id(2), &first).unwrap().expired_at, 40);

    assert_eq!(cache.take_tx(&id(1), &third), Some(300));
    assert_eq!(cache.get(&id(1), &third).unwrap().tx, None);
    assert_eq!(cache.get(&id(1), &first).unwrap().tx, Some(100));
    assert_eq!(cache.get(&id(2), &first).unwrap().tx, Some(400));
}

#[test]
fn last_entry_of_a_bucket_can_go_and_come_back() {
    let mut cache = PendingMessagesCache::new();
    cache.insert(id(1), id(2), state(10, 100));
    let removed = cache.remove(&id(1), &id(2)).unwrap();
    assert_eq!(removed.expired_at, 10);
    assert_eq!(removed.tx, Some(100));
    assert!(cache.get(&id(1), &id(2)).is_none());
    cache.insert(id(1), id(2), state(11, 101));
    assert_eq!(cache.get(&id(1), &id(2)).unwrap().expired_at, 11);
}

#[test]
fn place_to_report_is_taken_once() {
    let mut cache = PendingMessagesCache::new();
    assert_eq!(cache.take_tx(&id(1), &id(2)), None);
    cache.insert(id(1), id(2), state(10, 100));
    assert_eq!(cache.take_tx(&id(1), &id(2)), Some(100));
    assert_eq!(cache.take_tx(&id(1), &id(2)), None);
    let left = cache.remove(&id(1), &id(2)).unwrap();
    assert_eq!(left.expired_at, 10);
    assert_eq!(left.tx, None);
}

#[test]
fn many_entries_live_side_by_side() {
    let mut cache = PendingMessagesCache::new();
    for byte in 0..=255u8 {
        cache.insert(id(byte), id(255 - byte), state(byte as u32, byte as u64));
    }
    for byte in (0..=255u8).step_by(2) {
        assert_eq!(cache.remove(&id(byte), &id(255 - byte)).unwrap().expired_at, byte as u32);
    }
    for byte in 0..=255u8 {
        assert_eq!(cache.get(&id(byte), &id(255 - byte)).is_some(), byte % 2 == 1);
    }
}

#[test]
fn keys_name_each_message_once() {
    let mut cache = PendingMessagesCache::new();
    let (first, mut second) = (id(7), id(7));
    second.bytes[31] = 8;
    cache.insert(id(1), first, state(10, 100));
    cache.insert(id(1), second, state(20, 200));
    cache.insert(id(2), first, state(30, 300));
    cache.insert(id(2), id(9), state(40, 400));
    cache.remove(&id(1), &first);
    let mut keys: Vec<_> = cache
        .keys()
        .into_iter()
        .map(|(account, hash)| (account.bytes, hash.bytes))
        .collect();
    keys.sort();
    assert_eq!(
        keys,
        vec![
            (id(1).bytes, second.bytes),
            (id(2).bytes, first.bytes),
            (id(2).bytes, id(9).bytes),
        ]
    );
}
