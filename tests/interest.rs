use std::collections::HashSet;
use tweet_provider::interest::InterestMap;

fn set(items: &[u64]) -> HashSet<u64> {
    items.iter().copied().collect()
}

#[test]
fn first_delta_grows_the_map() {
    let mut m = InterestMap::new();
    assert!(m.is_empty());
    let e = m.apply_delta(1, &set(&[10, 20]));
    assert!(e.grew);
    assert!(!e.shrunk);
    assert!(m.contains(10) && m.contains(20));
    assert_eq!(m.follow_set(), set(&[10, 20]));
}

#[test]
fn shared_author_survives_one_client_leaving() {
    let mut m = InterestMap::new();
    m.apply_delta(1, &set(&[10]));
    let e = m.apply_delta(2, &set(&[10, 20]));
    assert!(e.grew);
    let e = m.apply_delta(1, &set(&[]));
    assert!(!e.grew);
    assert!(!e.shrunk);
    assert_eq!(m.follow_set(), set(&[10, 20]));
    let e = m.apply_delta(2, &set(&[20]));
    assert!(e.shrunk);
    assert!(!e.grew);
    assert_eq!(m.follow_set(), set(&[20]));
}

#[test]
fn empty_delta_empties_the_map() {
    let mut m = InterestMap::new();
    m.apply_delta(7, &set(&[1, 2, 3]));
    let e = m.apply_delta(7, &set(&[]));
    assert!(e.shrunk);
    assert!(m.is_empty());
    assert!(m.follow_set().is_empty());
}

#[test]
fn same_delta_twice_changes_nothing() {
    let mut m = InterestMap::new();
    m.apply_delta(1, &set(&[5, 6]));
    let e = m.apply_delta(1, &set(&[5, 6]));
    assert!(!e.grew && !e.shrunk);
    assert_eq!(m.follow_set(), set(&[5, 6]));
}

#[test]
fn delta_for_unknown_client_leaves_others() {
    let mut m = InterestMap::new();
    m.apply_delta(1, &set(&[5]));
    let e = m.apply_delta(2, &set(&[]));
    assert!(!e.grew && !e.shrunk);
    assert_eq!(m.follow_set(), set(&[5]));
}

#[test]
fn largest_identifiers() {
    let mut m = InterestMap::new();
    m.apply_delta(u64::MAX, &set(&[u64::MAX, 0]));
    assert_eq!(m.follow_set(), set(&[u64::MAX, 0]));
}
