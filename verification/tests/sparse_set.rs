use spaghetti_engine::sparse_set::SparseSet;

fn keys<T>(s: &SparseSet<T>) -> Vec<usize> {
    s.entries().iter().map(|e| e.key()).collect()
}

#[test]
fn new_set_is_empty() {
    let s: SparseSet<u32> = SparseSet::with_capacity(8);
    assert_eq!(s.len(), 0);
    assert_eq!(s.capacity(), 8);
    for k in 0..8 {
        assert!(!s.contains(k));
        assert!(s.get(k).is_none());
    }
}

#[test]
fn insert_then_get_gives_back_the_value() {
    let mut s: SparseSet<&str> = SparseSet::with_capacity(10);
    assert!(s.insert(3, "three"));
    assert!(s.insert(7, "seven"));
    assert_eq!(s.get(3), Some(&"three"));
    assert_eq!(s.get(7), Some(&"seven"));
    assert_eq!(s.get(4), None);
    assert_eq!(s.len(), 2);
    assert_eq!(keys(&s), vec![3, 7]);
}

#[test]
fn insert_on_a_held_key_overwrites_and_reports_false() {
    let mut s: SparseSet<u32> = SparseSet::with_capacity(4);
    assert!(s.insert(2, 10));
    assert!(!s.insert(2, 20));
    assert_eq!(s.get(2), Some(&20));
    assert_eq!(s.len(), 1);
}

#[test]
fn remove_returns_the_value_and_moves_the_last_entry_into_its_place() {
    let mut s: SparseSet<u32> = SparseSet::with_capacity(10);
    s.insert(1, 100);
    s.insert(5, 500);
    s.insert(9, 900);
    assert_eq!(s.remove(1), Some(100));
    assert_eq!(keys(&s), vec![9, 5]);
    assert!(!s.contains(1));
    assert_eq!(s.get(9), Some(&900));
    assert_eq!(s.get(5), Some(&500));
    assert_eq!(s.len(), 2);
}

#[test]
fn remove_of_the_last_entry_keeps_the_order() {
    let mut s: SparseSet<u32> = SparseSet::with_capacity(10);
    s.insert(4, 1);
    s.insert(6, 2);
    assert_eq!(s.remove(6), Some(2));
    assert_eq!(keys(&s), vec![4]);
}

#[test]
fn remove_of_a_missing_key_changes_nothing() {
    let mut s: SparseSet<u32> = SparseSet::with_capacity(5);
    s.insert(0, 1);
    assert_eq!(s.remove(3), None);
    assert_eq!(s.len(), 1);
    assert_eq!(keys(&s), vec![0]);
}

#[test]
fn clear_empties_but_keeps_capacity() {
    let mut s: SparseSet<u32> = SparseSet::with_capacity(6);
    s.insert(0, 1);
    s.insert(5, 2);
    s.clear();
    assert_eq!(s.len(), 0);
    assert_eq!(s.capacity(), 6);
    assert!(!s.contains(5));
    assert!(s.insert(5, 3));
}

#[test]
fn get_mut_changes_the_stored_value() {
    let mut s: SparseSet<u32> = SparseSet::with_capacity(3);
    s.insert(1, 5);
    if let Some(v) = s.get_mut(1) {
        *v += 1;
    }
    assert_eq!(s.get(1), Some(&6));
    assert!(s.get_mut(2).is_none());
}

#[test]
fn get_pair_mut_gives_both_values() {
    let mut s: SparseSet<u32> = SparseSet::with_capacity(4);
    s.insert(0, 1);
    s.insert(3, 2);
    if let Some((a, b)) = s.get_pair_mut(0, 3) {
        std::mem::swap(a, b);
    }
    assert_eq!(s.get(0), Some(&2));
    assert_eq!(s.get(3), Some(&1));
    assert!(s.get_pair_mut(0, 2).is_none());
}

#[test]
fn entries_expose_keys_and_values_in_storage_order() {
    let mut s: SparseSet<u32> = SparseSet::with_capacity(4);
    s.insert(2, 20);
    s.insert(0, 0);
    let pairs: Vec<(usize, u32)> = s.entries().iter().map(|e| (e.key(), *e.value())).collect();
    assert_eq!(pairs, vec![(2, 20), (0, 0)]);
    for e in s.entries_mut().iter_mut() {
        *e.value_mut() += 1;
    }
    assert_eq!(s.get(2), Some(&21));
    let owned: Vec<(usize, u32)> = s.into_entries().into_iter().map(|e| (e.key(), e.value)).collect();
    assert_eq!(owned, vec![(2, 21), (0, 1)]);
}

#[test]
fn storing_and_taking_out_a_new_key_leaves_the_set_as_it_was() {
    let mut s: SparseSet<u32> = SparseSet::with_capacity(10);
    s.insert(3, 30);
    s.insert(1, 10);
    s.insert(7, 70);
    assert!(s.insert(5, 50));
    assert_eq!(s.remove(5), Some(50));
    assert_eq!(keys(&s), vec![3, 1, 7]);
    assert_eq!(s.get(3), Some(&30));
    assert_eq!(s.get(1), Some(&10));
    assert_eq!(s.get(7), Some(&70));
    assert_eq!(s.get(5), None);
}
