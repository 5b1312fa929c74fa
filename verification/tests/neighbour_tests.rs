use lorelay::neighbour::{Neighbour, NeighbourTable, NEIGHBOUR_CAPACITY};

#[test]
fn new_table_is_empty() {
    let table = NeighbourTable::new();
    assert_eq!(table.len(), 0);
    assert!(!table.contains(0));
    assert_eq!(table.last_seen_of(0), None);
}

#[test]
fn observe_inserts_unknown_peer() {
    let mut table = NeighbourTable::new();
    table.observe(5, 100);
    assert_eq!(table.len(), 1);
    assert!(table.contains(5));
    assert_eq!(table.last_seen_of(5), Some(100));
    assert!(!table.contains(6));
}

#[test]
fn observe_again_only_refreshes_timestamp() {
    // Two observations of the same identifier, the second later: the size
    // stays, only last_seen moves.
    let mut table = NeighbourTable::new();
    table.observe(5, 100);
    table.observe(9, 150);
    table.observe(5, 200);
    assert_eq!(table.len(), 2);
    assert_eq!(table.last_seen_of(5), Some(200));
    assert_eq!(table.last_seen_of(9), Some(150));
}

#[test]
fn observe_many_distinct_peers() {
    let mut table = NeighbourTable::new();
    for id in 0..10u16 {
        table.observe(id, 1000 + id as u64);
    }
    assert_eq!(table.len(), 10);
    for id in 0..10u16 {
        assert!(table.contains(id));
        assert_eq!(table.last_seen_of(id), Some(1000 + id as u64));
    }
}

#[test]
fn full_table_evicts_oldest() {
    let mut table = NeighbourTable::new();
    for id in 1..=NEIGHBOUR_CAPACITY as u16 {
        table.observe(id, 1000 + id as u64);
    }
    assert_eq!(table.len(), NEIGHBOUR_CAPACITY);
    // Identifier 1 carries the oldest timestamp; a newcomer takes its slot.
    table.observe(99, 5000);
    assert_eq!(table.len(), NEIGHBOUR_CAPACITY);
    assert!(table.contains(99));
    assert_eq!(table.last_seen_of(99), Some(5000));
    assert!(!table.contains(1));
    for id in 2..=NEIGHBOUR_CAPACITY as u16 {
        assert!(table.contains(id));
    }
}

#[test]
fn full_table_refresh_does_not_evict() {
    let mut table = NeighbourTable::new();
    for id in 1..=NEIGHBOUR_CAPACITY as u16 {
        table.observe(id, 1000 + id as u64);
    }
    table.observe(1, 9000);
    assert_eq!(table.len(), NEIGHBOUR_CAPACITY);
    for id in 1..=NEIGHBOUR_CAPACITY as u16 {
        assert!(table.contains(id));
    }
    assert_eq!(table.last_seen_of(1), Some(9000));
}

#[test]
fn entries_reflect_observations() {
    let mut table = NeighbourTable::new();
    table.observe(3, 30);
    table.observe(1, 10);
    table.observe(3, 35);
    let entries = table.entries();
    assert_eq!(
        entries,
        vec![Neighbour { id: 3, last_seen: 35 }, Neighbour { id: 1, last_seen: 10 }],
    );
}

#[test]
fn eviction_tie_drops_first_stored() {
    let mut table = NeighbourTable::new();
    for id in 1..=NEIGHBOUR_CAPACITY as u16 {
        table.observe(id, 42);
    }
    table.observe(77, 100);
    assert!(table.contains(77));
    assert!(!table.contains(1));
    assert!(table.contains(2));
}
