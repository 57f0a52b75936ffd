use psila_sniffer::application::NetworkKeyPayload;
use psila_sniffer::key::Key;
use psila_sniffer::security::{LearnOutcome, SecurityService, DEFAULT_LINK_KEY, KEY_STORE_CAPACITY};

fn network_key(bytes: [u8; 16]) -> NetworkKeyPayload {
    NetworkKeyPayload {
        key: Key::from_bytes(bytes),
        destination: 0x1122_3344_5566_7788,
        source: 0x99AA_BBCC_DDEE_FF00,
        sequence: 1,
    }
}

#[test]
fn new_store_holds_exactly_the_default_key() {
    let service = SecurityService::new();
    assert_eq!(service.keys.len(), 1);
    assert_eq!(service.keys[0].bytes, DEFAULT_LINK_KEY);
    assert_eq!(service.keys[0].bytes, *b"ZigBeeAlliance09");
}

#[test]
fn add_key_appends_in_order() {
    let mut service = SecurityService::new();
    assert!(service.add_key(Key::from_bytes([1; 16])).is_ok());
    assert!(service.add_key(Key::from_bytes([2; 16])).is_ok());
    assert_eq!(service.keys.len(), 3);
    assert_eq!(service.keys[1].bytes, [1; 16]);
    assert_eq!(service.keys[2].bytes, [2; 16]);
}

#[test]
fn add_key_bytes_matches_add_key() {
    let mut service = SecurityService::new();
    assert!(service.add_key_bytes([7; 16]).is_ok());
    assert_eq!(service.keys.len(), 2);
    assert_eq!(service.keys[1].bytes, [7; 16]);
}

#[test]
fn add_key_does_not_deduplicate() {
    // No de-duplication at this layer: callers decide.
    let mut service = SecurityService::new();
    assert!(service.add_key(Key::from_bytes([1; 16])).is_ok());
    assert!(service.add_key(Key::from_bytes([1; 16])).is_ok());
    assert_eq!(service.keys.len(), 3);
}

#[test]
fn capacity_bound_is_never_exceeded() {
    let mut service = SecurityService::new();
    for i in 0..(KEY_STORE_CAPACITY as u8 - 1) {
        assert!(service.add_key(Key::from_bytes([i + 1; 16])).is_ok());
    }
    assert_eq!(service.keys.len(), KEY_STORE_CAPACITY);
    // The seventeenth insertion is rejected, and nothing is disturbed.
    assert!(service.add_key(Key::from_bytes([0xEE; 16])).is_err());
    assert_eq!(service.keys.len(), KEY_STORE_CAPACITY);
    assert_eq!(service.keys[0].bytes, DEFAULT_LINK_KEY);
    for i in 0..(KEY_STORE_CAPACITY as u8 - 1) {
        assert_eq!(service.keys[usize::from(i) + 1].bytes, [i + 1; 16]);
    }
}

#[test]
fn learning_adds_a_new_key() {
    let mut service = SecurityService::new();
    let outcome = service.add_transport_key(&network_key([0x42; 16]));
    assert_eq!(outcome, LearnOutcome::Added);
    assert_eq!(service.keys.len(), 2);
    assert_eq!(service.keys[1].bytes, [0x42; 16]);
}

#[test]
fn learning_is_idempotent() {
    // N duplicate observations leave the store exactly as one does.
    let mut service = SecurityService::new();
    assert_eq!(service.add_transport_key(&network_key([0x42; 16])), LearnOutcome::Added);
    let size_after_one = service.keys.len();
    for _ in 0..5 {
        assert_eq!(
            service.add_transport_key(&network_key([0x42; 16])),
            LearnOutcome::AlreadyKnown
        );
    }
    assert_eq!(service.keys.len(), size_after_one);
    assert_eq!(service.keys.len(), 2);
}

#[test]
fn learning_ignores_metadata_when_deduplicating() {
    // De-duplication is by key bytes alone, not by who transported them.
    let mut service = SecurityService::new();
    assert_eq!(service.add_transport_key(&network_key([0x42; 16])), LearnOutcome::Added);
    let other_sender = NetworkKeyPayload {
        key: Key::from_bytes([0x42; 16]),
        destination: 5,
        source: 6,
        sequence: 7,
    };
    assert_eq!(service.add_transport_key(&other_sender), LearnOutcome::AlreadyKnown);
    assert_eq!(service.keys.len(), 2);
}

#[test]
fn learning_reports_a_full_store() {
    let mut service = SecurityService::new();
    for i in 0..(KEY_STORE_CAPACITY as u8 - 1) {
        assert!(service.add_key(Key::from_bytes([i + 1; 16])).is_ok());
    }
    let outcome = service.add_transport_key(&network_key([0xEE; 16]));
    assert_eq!(outcome, LearnOutcome::StoreFull);
    assert_eq!(service.keys.len(), KEY_STORE_CAPACITY);
    // A key already present is still recognised even when the store is full.
    assert_eq!(
        service.add_transport_key(&network_key([1; 16])),
        LearnOutcome::AlreadyKnown
    );
}

#[test]
fn contains_is_byte_wise() {
    let mut service = SecurityService::new();
    assert!(service.add_key(Key::from_bytes([0x42; 16])).is_ok());
    assert!(service.contains(&Key::from_bytes([0x42; 16])));
    assert!(!service.contains(&Key::from_bytes([0x43; 16])));
}

#[test]
fn key_equality_is_byte_wise() {
    let a = Key::from_bytes([9; 16]);
    let b = Key::from_bytes([9; 16]);
    let mut different = [9; 16];
    different[15] = 10;
    let c = Key::from_bytes(different);
    assert!(a.same(&b));
    assert!(a == b);
    assert!(!a.same(&c));
    assert!(a != c);
}
