use efl::eina::{
    hash_add, hash_find, hash_free, hash_population, hash_string_superfast_new,
    hash_stringshared_new, inlist_append, inlist_demote, inlist_prepend, inlist_promote,
    inlist_remove, list_append, list_count, list_data_get, list_data_set, list_free, list_last,
    list_last_data_get, list_next, list_prepend, list_prev, list_walk, EinaList,
};

#[test]
fn list_mutate_then_traverse() {
    // append "a", append "b", prepend "c": traversal yields exactly c, a, b
    let l = list_append(None, "a");
    let l = list_append(Some(l), "b");
    let mut l = list_prepend(Some(l), "c");
    assert_eq!(list_count(&l), 3);
    let mut seen = Vec::new();
    while let Some(v) = l.next() {
        seen.push(*v);
    }
    assert_eq!(seen, vec!["c", "a", "b"]);
    assert!(l.exhausted());
    assert!(l.next().is_none());
}

#[test]
fn empty_list_is_null() {
    let mut l: EinaList<u32> = EinaList::new();
    assert_eq!(list_count(&l), 0);
    assert!(l.exhausted());
    assert!(list_data_get(&l).is_none());
    assert!(list_last_data_get(&l).is_none());
    assert!(!list_next(&mut l));
    assert!(!list_prev(&mut l));
    assert!(!list_last(&mut l));
    assert_eq!(list_walk(&mut l), 0);
}

#[test]
fn list_node_accessors() {
    let l = list_append(None, 10);
    let l = list_append(Some(l), 20);
    let mut l = list_append(Some(l), 30);
    assert_eq!(*list_data_get(&l).unwrap(), 10);
    assert_eq!(*list_last_data_get(&l).unwrap(), 30);
    assert!(list_next(&mut l));
    assert_eq!(*list_data_get(&l).unwrap(), 20);
    assert!(list_prev(&mut l));
    assert_eq!(*list_data_get(&l).unwrap(), 10);
    assert!(!list_prev(&mut l));
    assert!(list_last(&mut l));
    assert_eq!(*list_data_get(&l).unwrap(), 30);
    // at the last node the next pointer is null
    assert!(!list_next(&mut l));
}

#[test]
fn list_data_set_replaces_and_returns_old() {
    let mut l = list_append(None, "old");
    let prev = list_data_set(&mut l, "new");
    assert_eq!(prev, Some("old"));
    assert_eq!(*list_data_get(&l).unwrap(), "new");
}

#[test]
fn list_walk_counts_remaining() {
    let l = list_append(None, 1u8);
    let l = list_append(Some(l), 2u8);
    let mut l = list_append(Some(l), 3u8);
    assert!(list_next(&mut l));
    assert_eq!(list_walk(&mut l), 2);
    assert!(l.exhausted());
}

#[test]
fn list_accounting_reports_count_and_last() {
    let l = list_append(None, 5i32);
    let l = list_append(Some(l), 6i32);
    let acc = l.accounting();
    assert_eq!(acc.count, 2);
    assert_eq!(acc.last, Some(1));
}

#[test]
fn list_free_returns_null_handle() {
    let l = list_append(None, 9u64);
    let freed = list_free(l);
    assert!(freed.exhausted());
}

#[test]
fn inlist_append_prepend_remove() {
    let l = inlist_append(None, 0x10);
    let l = inlist_append(Some(l), 0x20);
    let l = inlist_prepend(Some(l), 0x30);
    assert_eq!(l.nodes().as_slice(), &[0x30, 0x10, 0x20]);
    let l = inlist_remove(l, 0x10);
    assert_eq!(l.nodes().as_slice(), &[0x30, 0x20]);
}

#[test]
fn inlist_promote_moves_to_front() {
    let l = inlist_append(None, 1);
    let l = inlist_append(Some(l), 2);
    let l = inlist_append(Some(l), 3);
    let l = inlist_promote(l, 3);
    assert_eq!(l.nodes().as_slice(), &[3, 1, 2]);
}

#[test]
fn inlist_demote_moves_to_end() {
    let l = inlist_append(None, 1);
    let l = inlist_append(Some(l), 2);
    let l = inlist_append(Some(l), 3);
    let l = inlist_demote(l, 1);
    assert_eq!(l.nodes().as_slice(), &[2, 3, 1]);
}

#[test]
fn hash_add_find_population() {
    let mut h = hash_string_superfast_new();
    assert!(hash_add(&mut h, String::from("one"), 1u32));
    assert!(hash_add(&mut h, String::from("two"), 2u32));
    assert_eq!(hash_population(&h), 2);
    assert_eq!(hash_find(&h, &String::from("one")), Some(&1));
    assert_eq!(hash_find(&h, &String::from("two")), Some(&2));
    assert_eq!(hash_find(&h, &String::from("three")), None);
    hash_free(h);
}

#[test]
fn hash_add_refuses_duplicate_key() {
    let mut h = hash_stringshared_new();
    assert!(hash_add(&mut h, String::from("k"), "first"));
    assert!(!hash_add(&mut h, String::from("k"), "second"));
    assert_eq!(hash_population(&h), 1);
    assert_eq!(hash_find(&h, &String::from("k")), Some(&"first"));
}
