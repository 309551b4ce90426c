use crayon::handle::{Handle, HandlePool};

#[test]
fn pool_hands_out_fresh_slots_in_order() {
    let mut pool = HandlePool::new();
    assert_eq!(pool.create(), Some(Handle::new(0, 0)));
    assert_eq!(pool.create(), Some(Handle::new(1, 0)));
    assert_eq!(pool.create(), Some(Handle::new(2, 0)));
    assert!(pool.is_alive(Handle::new(0, 0)));
    assert!(pool.is_alive(Handle::new(2, 0)));
    assert!(!pool.is_alive(Handle::new(3, 0)));
    assert!(!pool.is_alive(Handle::new(0, 1)));
}

#[test]
fn pool_reuses_a_slot_under_the_next_version() {
    let mut pool = HandlePool::new();
    let first = pool.create().unwrap();
    let second = pool.create().unwrap();
    assert!(pool.free(first));
    assert!(!pool.is_alive(first));
    assert!(pool.is_alive(second));
    let third = pool.create().unwrap();
    assert_eq!(third, Handle::new(0, 1));
    assert_ne!(third, first);
    assert!(pool.is_alive(third));
    assert!(!pool.is_alive(first));
}

#[test]
fn pool_frees_a_handle_once() {
    let mut pool = HandlePool::new();
    let handle = pool.create().unwrap();
    assert!(pool.free(handle));
    assert!(!pool.free(handle));
    assert!(!pool.free(Handle::new(7, 0)));
    assert_eq!(pool.free.len(), 1);
    let again = pool.create().unwrap();
    assert!(!pool.free(handle));
    assert!(pool.is_alive(again));
}

#[test]
fn pool_reuses_the_slot_freed_last_first() {
    let mut pool = HandlePool::new();
    let a = pool.create().unwrap();
    let b = pool.create().unwrap();
    pool.free(a);
    pool.free(b);
    assert_eq!(pool.create(), Some(Handle::new(1, 1)));
    assert_eq!(pool.create(), Some(Handle::new(0, 1)));
    assert_eq!(pool.create(), Some(Handle::new(2, 0)));
}

#[test]
fn pool_retires_a_slot_whose_versions_are_used_up() {
    let mut pool = HandlePool { versions: vec![u32::MAX - 1], alive: vec![true], free: vec![] };
    let last = Handle::new(0, u32::MAX - 1);
    assert!(pool.is_alive(last));
    assert!(pool.free(last));
    assert!(pool.free.is_empty());
    assert_eq!(pool.create(), Some(Handle::new(1, 0)));
    assert!(!pool.is_alive(Handle::new(0, u32::MAX)));
}
