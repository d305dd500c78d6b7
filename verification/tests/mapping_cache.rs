use aurora_bridge::address::Address;
use aurora_bridge::cache::{MappingCache, MappingEntry, StorageKey};
use aurora_bridge::error::BridgeError;

#[test]
fn a_new_cache_knows_nothing() {
    let cache = MappingCache::new();
    assert_eq!(cache.len(), 0);
    assert_eq!(cache.lookup("token.example"), None);
    assert_eq!(cache.lookup(""), None);
    assert_eq!(cache.lookup_address(&Address([0x11; 20])), None);
}

#[test]
fn a_pair_is_found_from_both_sides() {
    let mut cache = MappingCache::new();
    assert_eq!(cache.insert("token.example".to_string(), Address([0x11; 20])), Ok(()));
    assert_eq!(cache.lookup("token.example"), Some(Address([0x11; 20])));
    assert_eq!(
        cache.lookup_address(&Address([0x11; 20])),
        Some("token.example".to_string())
    );
    assert_eq!(cache.lookup("token.exampl"), None);
    assert_eq!(cache.lookup_address(&Address([0x12; 20])), None);
    assert_eq!(cache.len(), 1);
}

#[test]
fn pairs_stay_when_others_are_added() {
    let mut cache = MappingCache::new();
    assert_eq!(cache.insert("a.example".to_string(), Address([1; 20])), Ok(()));
    assert_eq!(cache.insert("b.example".to_string(), Address([2; 20])), Ok(()));
    assert_eq!(cache.insert("c.example".to_string(), Address([3; 20])), Ok(()));
    assert_eq!(cache.len(), 3);
    assert_eq!(cache.lookup("a.example"), Some(Address([1; 20])));
    assert_eq!(cache.lookup("b.example"), Some(Address([2; 20])));
    assert_eq!(cache.lookup("c.example"), Some(Address([3; 20])));
    assert_eq!(cache.lookup_address(&Address([1; 20])), Some("a.example".to_string()));
    assert_eq!(cache.lookup_address(&Address([2; 20])), Some("b.example".to_string()));
    assert_eq!(cache.lookup_address(&Address([3; 20])), Some("c.example".to_string()));
}

#[test]
fn the_same_pair_again_changes_nothing() {
    let mut cache = MappingCache::new();
    assert_eq!(cache.insert("a.example".to_string(), Address([1; 20])), Ok(()));
    assert_eq!(cache.insert("a.example".to_string(), Address([1; 20])), Ok(()));
    assert_eq!(cache.len(), 1);
    assert_eq!(cache.lookup("a.example"), Some(Address([1; 20])));
}

#[test]
fn a_token_keeps_its_first_address() {
    let mut cache = MappingCache::new();
    assert_eq!(cache.insert("a.example".to_string(), Address([1; 20])), Ok(()));
    assert_eq!(
        cache.insert("a.example".to_string(), Address([2; 20])),
        Err(BridgeError::MappingConflict)
    );
    assert_eq!(cache.len(), 1);
    assert_eq!(cache.lookup("a.example"), Some(Address([1; 20])));
    assert_eq!(cache.lookup_address(&Address([1; 20])), Some("a.example".to_string()));
    assert_eq!(cache.lookup_address(&Address([2; 20])), None);
}

#[test]
fn an_address_keeps_its_first_token() {
    let mut cache = MappingCache::new();
    assert_eq!(cache.insert("a.example".to_string(), Address([1; 20])), Ok(()));
    assert_eq!(
        cache.insert("b.example".to_string(), Address([1; 20])),
        Err(BridgeError::MappingConflict)
    );
    assert_eq!(cache.len(), 1);
    assert_eq!(cache.lookup("b.example"), None);
    assert_eq!(cache.lookup_address(&Address([1; 20])), Some("a.example".to_string()));
}

#[test]
fn a_pair_made_of_two_cached_sides_is_refused() {
    let mut cache = MappingCache::new();
    assert_eq!(cache.insert("a.example".to_string(), Address([1; 20])), Ok(()));
    assert_eq!(cache.insert("b.example".to_string(), Address([2; 20])), Ok(()));
    assert_eq!(
        cache.insert("a.example".to_string(), Address([2; 20])),
        Err(BridgeError::MappingConflict)
    );
    assert_eq!(cache.lookup("a.example"), Some(Address([1; 20])));
    assert_eq!(cache.lookup("b.example"), Some(Address([2; 20])));
    assert_eq!(cache.len(), 2);
}

#[test]
fn pairs_are_kept_in_the_order_of_their_recording() {
    let mut cache = MappingCache::new();
    assert_eq!(cache.get(0), None);
    assert_eq!(cache.insert("a.example".to_string(), Address([1; 20])), Ok(()));
    assert_eq!(cache.insert("b.example".to_string(), Address([2; 20])), Ok(()));
    assert_eq!(cache.insert("a.example".to_string(), Address([1; 20])), Ok(()));
    assert_eq!(
        cache.get(0),
        Some(&MappingEntry { token_id: "a.example".to_string(), address: Address([1; 20]) })
    );
    assert_eq!(
        cache.get(1),
        Some(&MappingEntry { token_id: "b.example".to_string(), address: Address([2; 20]) })
    );
    assert_eq!(cache.get(2), None);
}

#[test]
fn token_accounts_are_compared_character_by_character() {
    let mut cache = MappingCache::new();
    assert_eq!(cache.insert("t\u{e9}.example".to_string(), Address([1; 20])), Ok(()));
    assert_eq!(cache.insert("te.example".to_string(), Address([2; 20])), Ok(()));
    assert_eq!(cache.insert(String::new(), Address([3; 20])), Ok(()));
    assert_eq!(cache.lookup("t\u{e9}.example"), Some(Address([1; 20])));
    assert_eq!(cache.lookup("te.example"), Some(Address([2; 20])));
    assert_eq!(cache.lookup(""), Some(Address([3; 20])));
    assert_eq!(cache.lookup("T\u{e9}.example"), None);
    assert_eq!(cache.lookup_address(&Address([3; 20])), Some(String::new()));
}

#[test]
fn the_tables_have_their_own_prefixes() {
    assert_eq!(StorageKey::Erc20ToNep141.prefix(), 0);
    assert_eq!(StorageKey::Nep141ToErc20.prefix(), 1);
}
