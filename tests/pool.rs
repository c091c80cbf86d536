use bifrost_core::pool::ClientPool;
use bifrost_core::ident::hash_str;

#[test]
fn repeated_lookup_returns_same_handle() {
    let mut pool: ClientPool<std::sync::Arc<String>> = ClientPool::new();
    assert!(pool.get_by_id(9).is_none());
    let conn = std::sync::Arc::new(String::from("connection to 9"));
    pool.insert(9, conn.clone());
    let first = pool.get_by_id(9).unwrap().clone();
    let second = pool.get_by_id(9).unwrap().clone();
    assert!(std::sync::Arc::ptr_eq(&first, &second));
    assert!(std::sync::Arc::ptr_eq(&first, &conn));
}

#[test]
fn get_by_address_uses_address_hash() {
    let addr = String::from("127.0.0.1:1411");
    let id = hash_str(&addr);
    let mut pool: ClientPool<u32> = ClientPool::new();
    assert_eq!(pool.get(&addr), None);
    pool.insert(id, 77);
    assert_eq!(pool.get(&addr), Some(&77));
    assert_eq!(pool.get(&String::from("127.0.0.1:1412")), None);
}

#[test]
fn hash_str_is_deterministic_and_spreads() {
    assert_eq!(hash_str("127.0.0.1:1300"), hash_str("127.0.0.1:1300"));
    assert_ne!(hash_str("127.0.0.1:1300"), hash_str("127.0.0.1:1301"));
    assert_ne!(hash_str("a"), hash_str(""));
}
