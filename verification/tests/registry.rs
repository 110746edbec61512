use scoped_spawn::registry::Registry;

#[test]
fn new_registry_is_empty() {
    let r: Registry<u32> = Registry::new();
    assert_eq!(r.len(), 0);
    assert!(r.has_room());
    assert!(!r.contains(0));
}

#[test]
fn insert_hands_out_increasing_ids() {
    let mut r = Registry::new();
    assert_eq!(r.insert(10u32), 0);
    assert_eq!(r.insert(20u32), 1);
    assert_eq!(r.insert(30u32), 2);
    assert_eq!(r.len(), 3);
    assert!(r.contains(1));
    assert!(!r.contains(3));
}

#[test]
fn remove_undoes_insert() {
    let mut r = Registry::new();
    r.insert('a');
    let id = r.insert('b');
    assert_eq!(r.remove(id), Some('b'));
    assert_eq!(r.len(), 1);
    assert!(!r.contains(id));
    assert_eq!(r.take_all(), vec!['a']);
}

#[test]
fn remove_of_absent_id_changes_nothing() {
    let mut r = Registry::new();
    r.insert(1u8);
    r.insert(2u8);
    assert_eq!(r.remove(7), None);
    assert_eq!(r.len(), 2);
    assert_eq!(r.take_all(), vec![1u8, 2u8]);
}

#[test]
fn remove_leaves_others() {
    let mut r = Registry::new();
    let a = r.insert("a");
    let b = r.insert("b");
    let c = r.insert("c");
    assert_eq!(r.remove(b), Some("b"));
    assert!(r.contains(a));
    assert!(r.contains(c));
    assert_eq!(r.remove(c), Some("c"));
    assert_eq!(r.remove(a), Some("a"));
    assert_eq!(r.len(), 0);
}

#[test]
fn ids_are_never_reused() {
    let mut r = Registry::new();
    let a = r.insert(1u64);
    assert_eq!(r.remove(a), Some(1));
    let b = r.insert(2u64);
    assert_ne!(a, b);
    r.clear();
    let c = r.insert(3u64);
    assert_eq!(c, 2);
    r.take_all();
    assert_eq!(r.insert(4u64), 3);
}

#[test]
fn clear_empties_the_table() {
    let mut r = Registry::new();
    r.insert(5i32);
    r.insert(6i32);
    r.clear();
    assert_eq!(r.len(), 0);
    assert!(r.take_all().is_empty());
}

#[test]
fn take_all_keeps_registration_order() {
    let mut r = Registry::new();
    r.insert(3u16);
    let mid = r.insert(1u16);
    r.insert(2u16);
    r.insert(9u16);
    r.remove(mid);
    assert_eq!(r.take_all(), vec![3u16, 2, 9]);
    assert_eq!(r.len(), 0);
    assert!(r.take_all().is_empty());
}
