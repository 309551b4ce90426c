use crayon::handle::Handle;
use crayon::table::DataVec;

#[test]
fn get_after_set_returns_the_value() {
    let mut table: DataVec<u32> = DataVec::new();
    let handle = Handle::new(3, 1);
    table.set(handle, 42);
    assert_eq!(table.get(handle), Some(&42));
}

#[test]
fn get_after_remove_is_empty() {
    let mut table: DataVec<u32> = DataVec::new();
    let handle = Handle::new(0, 0);
    table.set(handle, 7);
    assert_eq!(table.remove(handle), Some(7));
    assert_eq!(table.get(handle), None);
    assert_eq!(table.remove(handle), None);
}

#[test]
fn set_grows_storage_on_demand() {
    let mut table: DataVec<u8> = DataVec::new();
    assert_eq!(table.len(), 0);
    table.set(Handle::new(4, 0), 9);
    assert_eq!(table.len(), 5);
    for index in 0..4 {
        assert_eq!(table.get(Handle::new(index, 0)), None);
        assert!(!table.occupied(index));
    }
    assert!(table.occupied(4));
    table.set(Handle::new(1, 0), 5);
    assert_eq!(table.len(), 5);
    assert_eq!(table.get(Handle::new(4, 0)), Some(&9));
    assert_eq!(table.get(Handle::new(1, 0)), Some(&5));
}

#[test]
fn set_overwrites_the_slot() {
    let mut table: DataVec<u32> = DataVec::new();
    let handle = Handle::new(2, 0);
    table.set(handle, 1);
    table.set(handle, 2);
    assert_eq!(table.get(handle), Some(&2));
    assert_eq!(table.len(), 3);
}

#[test]
fn get_out_of_range_is_empty() {
    let table: DataVec<u32> = DataVec::new();
    assert_eq!(table.get(Handle::new(0, 0)), None);
    assert_eq!(table.get(Handle::new(u32::MAX, 0)), None);
    assert_eq!(table.at(0), None);
}

#[test]
fn stale_handle_reaches_nothing_after_reuse() {
    let mut table: DataVec<&str> = DataVec::new();
    let first = Handle::new(1, 0);
    table.set(first, "first");
    assert_eq!(table.remove(first), Some("first"));
    let second = Handle::new(1, 1);
    table.set(second, "second");
    assert_eq!(table.get(first), None);
    assert_eq!(table.get(second), Some(&"second"));
    assert_eq!(table.remove(first), None);
    assert_eq!(table.get(second), Some(&"second"));
    assert_eq!(table.at(1), Some(&"second"));
}

#[test]
fn get_mut_changes_only_the_value_reached() {
    let mut table: DataVec<u32> = DataVec::new();
    table.set(Handle::new(0, 0), 10);
    table.set(Handle::new(1, 0), 20);
    match table.get_mut(Handle::new(1, 0)) {
        Some(value) => *value = 21,
        None => panic!("slot 1 is occupied"),
    }
    assert_eq!(table.get(Handle::new(0, 0)), Some(&10));
    assert_eq!(table.get(Handle::new(1, 0)), Some(&21));
    assert!(table.get_mut(Handle::new(1, 5)).is_none());
    assert!(table.get_mut(Handle::new(9, 0)).is_none());
}

#[test]
fn remove_leaves_other_slots_alone() {
    let mut table: DataVec<u32> = DataVec::new();
    table.set(Handle::new(0, 0), 10);
    table.set(Handle::new(1, 0), 20);
    table.set(Handle::new(2, 0), 30);
    assert_eq!(table.remove(Handle::new(1, 0)), Some(20));
    assert_eq!(table.len(), 3);
    assert_eq!(table.get(Handle::new(0, 0)), Some(&10));
    assert_eq!(table.get(Handle::new(2, 0)), Some(&30));
    assert!(!table.occupied(1));
}

#[test]
fn handle_keeps_index_and_version() {
    let handle = Handle::new(5, 9);
    assert_eq!(handle.index(), 5);
    assert_eq!(handle.version(), 9);
    assert_eq!(handle, Handle { index: 5, version: 9 });
    assert_ne!(handle, Handle::new(5, 8));
}
