use ram::routing_snapshot::{DestinationSnapshot, RoutingSnapshot};
use ram::routing_table::RoutingTable;

#[test]
fn new_table_is_empty() {
    let table = RoutingTable::new();
    assert!(table.is_empty());
    assert_eq!(table.destination_count(), 0);
    assert_eq!(table.generation(), 0);
}

#[test]
fn update_increments_generation() {
    let mut table = RoutingTable::new();
    assert_eq!(table.generation(), 0);
    table.update(RoutingSnapshot::new());
    assert_eq!(table.generation(), 1);
    table.update(RoutingSnapshot::new());
    assert_eq!(table.generation(), 2);
}

#[test]
fn snapshot_reflects_updates() {
    let mut table = RoutingTable::new();
    let mut snapshot = RoutingSnapshot::new();
    snapshot.destinations.push(DestinationSnapshot::new("test:1".to_string(), "test".to_string(), 0));
    table.update(snapshot);
    let read = table.snapshot();
    assert_eq!(read.destinations.len(), 1);
    assert_eq!(read.destinations[0].dest_id, "test:1");
}

#[test]
fn snapshot_if_changed_returns_none_when_unchanged() {
    let table = RoutingTable::new();
    let gen = table.generation();
    assert!(table.snapshot_if_changed(gen).is_none());
}

#[test]
fn snapshot_if_changed_returns_some_when_changed() {
    let mut table = RoutingTable::new();
    let gen = table.generation();
    table.update(RoutingSnapshot::new());
    let result = table.snapshot_if_changed(gen);
    assert!(result.is_some());
    assert_eq!(result.unwrap().generation, 1);
}

#[test]
fn update_with_modifies_snapshot() {
    let mut table = RoutingTable::new();
    table.update_with(|current| {
        let mut new = current.clone();
        new.destinations.push(DestinationSnapshot::new("dest:1".to_string(), "device".to_string(), 0));
        new
    });
    assert_eq!(table.destination_count(), 1);
}

#[test]
fn old_snapshot_remains_valid_after_update() {
    let mut table = RoutingTable::new();
    let mut initial = RoutingSnapshot::new();
    initial.destinations.push(DestinationSnapshot::new("old:1".to_string(), "old".to_string(), 0));
    table.update(initial);
    let old_snapshot = table.snapshot();
    assert_eq!(old_snapshot.destinations[0].dest_id, "old:1");
    let mut new = RoutingSnapshot::new();
    new.destinations.push(DestinationSnapshot::new("new:1".to_string(), "new".to_string(), 0));
    table.update(new);
    assert_eq!(old_snapshot.destinations[0].dest_id, "old:1");
    let new_snapshot = table.snapshot();
    assert_eq!(new_snapshot.destinations[0].dest_id, "new:1");
}

#[test]
fn with_snapshot_initializes_correctly() {
    let mut snapshot = RoutingSnapshot::new();
    snapshot.generation = 42;
    snapshot.destinations.push(DestinationSnapshot::new("init:1".to_string(), "init".to_string(), 0));
    let table = RoutingTable::with_snapshot(snapshot);
    assert_eq!(table.generation(), 42);
    assert_eq!(table.destination_count(), 1);
}

#[test]
fn update_overwrites_snapshot_generation() {
    let mut table = RoutingTable::new();
    let mut s = RoutingSnapshot::new();
    s.generation = 99;
    table.update(s);
    assert_eq!(table.snapshot().generation, 1);
    assert!(table.snapshot_if_changed(1).is_none());
    assert!(table.snapshot_if_changed(0).is_some());
}
