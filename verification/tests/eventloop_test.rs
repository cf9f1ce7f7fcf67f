use rjs::jslib::eventloop::{upgrade_parts, RefStore};

#[test]
fn store_then_retrieve_gives_value_once() {
    let mut store = RefStore::new();
    let r = store.store_new(42);
    assert!(store.is_live(&r));
    assert_eq!(store.retrieve_copy(&r), Some(42));
    assert_eq!(store.retrieve_copy(&r), Some(42));
    assert_eq!(store.retrieve(&r), Some(42));
    assert_eq!(store.retrieve(&r), None);
    assert_eq!(store.retrieve_copy(&r), None);
    assert!(store.is_live(&r));
}

#[test]
fn slots_are_independent() {
    let mut store = RefStore::new();
    let a = store.store_new(1);
    let b = store.store_new(2);
    assert_ne!(a.key(), b.key());
    assert_eq!(store.retrieve(&a), Some(1));
    assert_eq!(store.retrieve_copy(&b), Some(2));
    assert_eq!(store.release(b), Some(2));
    assert_eq!(store.retrieve_copy(&a), None);
    assert!(store.is_live(&a));
}

#[test]
fn release_frees_slot_for_reuse() {
    let mut store = RefStore::new();
    let a = store.store_new(7);
    let key = a.key();
    assert_eq!(store.release(a), Some(7));
    let b = store.store_new(8);
    // the freed key is handed out again, holding the new value
    assert_eq!(b.key(), key);
    assert_eq!(store.retrieve(&b), Some(8));
    assert_eq!(store.release(b), None);
}

#[test]
fn upgrade_needs_both_parts() {
    assert_eq!(upgrade_parts(Some(1u8), Some("d")), Some((1u8, "d")));
    assert_eq!(upgrade_parts(None::<u8>, Some("d")), None);
    assert_eq!(upgrade_parts(Some(1u8), None::<&str>), None);
    assert_eq!(upgrade_parts(None::<u8>, None::<&str>), None);
}

#[test]
fn held_entries_are_the_slots_still_holding_values() {
    let mut store = RefStore::new();
    assert!(store.held_entries().is_empty());
    let a = store.store_new(10);
    let b = store.store_new(20);
    let c = store.store_new(30);
    assert_eq!(
        store.held_entries(),
        vec![(a.key(), 10), (b.key(), 20), (c.key(), 30)]
    );
    assert_eq!(store.retrieve(&a), Some(10));
    assert_eq!(store.release(c), Some(30));
    assert_eq!(store.held_entries(), vec![(b.key(), 20)]);
    assert_eq!(store.retrieve_copy(&b), Some(20));
    assert_eq!(store.held_entries(), vec![(b.key(), 20)]);
    let d = store.store_new(20);
    // two slots holding the same value are both listed, each once
    assert_eq!(store.held_entries().len(), 2);
    assert_eq!(store.release(b), Some(20));
    assert_eq!(store.held_entries(), vec![(d.key(), 20)]);
    assert_eq!(store.release(d), Some(20));
    assert!(store.held_entries().is_empty());
}
