use ram::destination::HeadroomMode;
use ram::routing_snapshot::{AtomicHeadroomMode, DestinationSnapshot, RoutingSnapshot, MAX_SOURCES_PER_DEST};

#[test]
fn destination_add_remove_sources() {
    let mut dest = DestinationSnapshot::new("test:1".to_string(), "test".to_string(), 0);

    assert_eq!(dest.active_count, 0);

    assert!(dest.add_source(0));
    assert_eq!(dest.active_count, 1);

    assert!(dest.add_source(1));
    assert_eq!(dest.active_count, 2);

    assert!(dest.find_source(0).is_some());
    assert!(dest.find_source(1).is_some());
    assert!(dest.find_source(2).is_none());

    assert!(dest.remove_source(0));
    assert_eq!(dest.active_count, 1);
    assert!(dest.find_source(0).is_none());

    assert!(!dest.remove_source(0)); // Already removed
}

#[test]
fn destination_max_sources() {
    let mut dest = DestinationSnapshot::new("test:1".to_string(), "test".to_string(), 0);

    for i in 0..MAX_SOURCES_PER_DEST {
        assert!(dest.add_source(i), "Failed to add source {i}");
    }

    assert_eq!(dest.active_count, MAX_SOURCES_PER_DEST);
    assert!(!dest.add_source(100)); // Should fail - full
}

#[test]
fn routing_snapshot_upsert() {
    let mut snapshot = RoutingSnapshot::new();

    let dest1 = DestinationSnapshot::new("dest:1".to_string(), "device".to_string(), 0);
    snapshot.upsert_destination(dest1);
    assert_eq!(snapshot.destinations.len(), 1);

    let dest2 = DestinationSnapshot::new("dest:2".to_string(), "device".to_string(), 1);
    snapshot.upsert_destination(dest2);
    assert_eq!(snapshot.destinations.len(), 2);

    // Update existing
    let mut dest1_updated = DestinationSnapshot::new("dest:1".to_string(), "device".to_string(), 0);
    dest1_updated.add_source(42);
    snapshot.upsert_destination(dest1_updated);
    assert_eq!(snapshot.destinations.len(), 2);

    let found = snapshot.find_destination("dest:1").unwrap();
    assert_eq!(found.active_count, 1);
}

#[test]
fn routing_snapshot_atomic_headroom_mode() {
    let mode = AtomicHeadroomMode::new(HeadroomMode::Clip);
    assert!(matches!(mode.load(), HeadroomMode::Clip));

    mode.store(HeadroomMode::Limiter);
    assert!(matches!(mode.load(), HeadroomMode::Limiter));
}

#[test]
fn destination_duplicate_sources_take_two_slots() {
    let mut dest = DestinationSnapshot::new("d:1".to_string(), "d".to_string(), 0);
    assert!(dest.add_source(7));
    assert!(dest.add_source(7));
    assert_eq!(dest.active_count, 2);
    assert!(dest.remove_source(7));
    assert_eq!(dest.active_count, 1);
    assert!(dest.find_source(7).is_some());
    assert!(dest.remove_source(7));
    assert!(dest.find_source(7).is_none());
}

#[test]
fn routing_snapshot_remove_destination() {
    let mut snapshot = RoutingSnapshot::new();
    snapshot.upsert_destination(DestinationSnapshot::new("a".to_string(), "dev".to_string(), 0));
    snapshot.upsert_destination(DestinationSnapshot::new("b".to_string(), "dev".to_string(), 1));
    assert!(snapshot.remove_destination("a"));
    assert!(!snapshot.remove_destination("a"));
    assert!(snapshot.find_destination("a").is_none());
    assert!(snapshot.find_destination("b").is_some());
    assert_eq!(snapshot.destinations.len(), 1);
}
