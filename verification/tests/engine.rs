use ram::connection::ConnectionId;
use ram::destination::HeadroomMode;
use ram::engine::{AudioEngine, EngineConfig};
use ram::error::Error;

fn test_id() -> ConnectionId {
    ConnectionId::local("Mic", 1, "Speaker", 1)
}

fn test_id_2() -> ConnectionId {
    ConnectionId::local("Mic", 2, "Speaker", 1)
}

#[test]
fn engine_new() {
    let engine = AudioEngine::new();
    assert_eq!(engine.connection_count(), 0);
    assert_eq!(engine.destination_count(), 0);
}

#[test]
fn engine_with_config() {
    let config = EngineConfig { buffer_size: 512, default_headroom_mode: HeadroomMode::AutoGain };
    let engine = AudioEngine::with_config(config);
    assert_eq!(engine.config().buffer_size, 512);
}

#[test]
fn create_connection() {
    let mut engine = AudioEngine::new();
    let id = test_id();

    engine.create_connection(id.clone()).unwrap();
    let conn = engine.get_connection(&id).unwrap();
    assert_eq!(conn.id(), &id);
    assert_eq!(engine.connection_count(), 1);
    assert_eq!(engine.destination_count(), 1);
}

#[test]
fn create_duplicate_connection_fails() {
    let mut engine = AudioEngine::new();
    let id = test_id();

    engine.create_connection(id.clone()).unwrap();
    let result = engine.create_connection(id);
    assert!(result.is_err());
}

#[test]
fn get_connection() {
    let mut engine = AudioEngine::new();
    let id = test_id();

    engine.create_connection(id.clone()).unwrap();
    assert!(engine.get_connection(&id).is_some());

    let other_id = test_id_2();
    assert!(engine.get_connection(&other_id).is_none());
}

#[test]
fn remove_connection() {
    let mut engine = AudioEngine::new();
    let id = test_id();

    engine.create_connection(id.clone()).unwrap();
    assert_eq!(engine.connection_count(), 1);

    engine.remove_connection(&id).unwrap();
    assert_eq!(engine.connection_count(), 0);
}

#[test]
fn remove_nonexistent_connection_fails() {
    let mut engine = AudioEngine::new();
    let id = test_id();

    let result = engine.remove_connection(&id);
    assert!(result.is_err());
}

#[test]
fn set_connection_gain() {
    let mut engine = AudioEngine::new();
    let id = test_id();

    engine.create_connection(id.clone()).unwrap();
    engine.set_connection_gain(&id, 0.5f32.to_bits()).unwrap();
    let conn = engine.get_connection(&id).unwrap();
    assert!((f32::from_bits(conn.gain_bits()) - 0.5).abs() < f32::EPSILON);
}

#[test]
fn set_connection_muted() {
    let mut engine = AudioEngine::new();
    let id = test_id();

    engine.create_connection(id.clone()).unwrap();
    engine.set_connection_muted(&id, true).unwrap();
    assert!(engine.get_connection(&id).unwrap().is_muted());
}

#[test]
fn set_connection_enabled() {
    let mut engine = AudioEngine::new();
    let id = test_id();

    engine.create_connection(id.clone()).unwrap();
    engine.set_connection_enabled(&id, false).unwrap();
    assert!(!engine.get_connection(&id).unwrap().is_enabled());
}

#[test]
fn set_destination_headroom_mode() {
    let mut engine = AudioEngine::new();
    let id = test_id();

    engine.create_connection(id.clone()).unwrap();
    let dest_id = id.destination_id();

    engine.set_destination_headroom_mode(&dest_id, HeadroomMode::AutoGain).unwrap();

    let dest = engine.get_destination(&dest_id).unwrap();
    assert_eq!(dest.headroom_mode(), HeadroomMode::AutoGain);
}

#[test]
fn multiple_connections_same_destination() {
    let mut engine = AudioEngine::new();
    let id1 = ConnectionId::local("Mic", 1, "Speaker", 1);
    let id2 = ConnectionId::local("Mic", 2, "Speaker", 1);

    engine.create_connection(id1.clone()).unwrap();
    engine.create_connection(id2.clone()).unwrap();

    assert_eq!(engine.connection_count(), 2);
    assert_eq!(engine.destination_count(), 1);

    let dest = engine.get_destination(&id1.destination_id()).unwrap();
    assert_eq!(dest.source_count(), 2);
}

#[test]
fn batch_create_connections() {
    let mut engine = AudioEngine::new();
    let ids = vec![
        ConnectionId::local("Mic", 1, "Out", 1),
        ConnectionId::local("Mic", 2, "Out", 1),
        ConnectionId::local("Mic", 3, "Out", 2),
    ];

    let results = engine.batch_create_connections(ids);
    assert_eq!(results.len(), 3);
    assert!(results.iter().all(Result::is_ok));
    assert_eq!(engine.connection_count(), 3);
}

#[test]
fn batch_remove_connections() {
    let mut engine = AudioEngine::new();
    let id1 = ConnectionId::local("Mic", 1, "Out", 1);
    let id2 = ConnectionId::local("Mic", 2, "Out", 1);

    engine.create_connection(id1.clone()).unwrap();
    engine.create_connection(id2.clone()).unwrap();

    let results = engine.batch_remove_connections(&[id1, id2]);
    assert!(results.iter().all(Result::is_ok));
    assert_eq!(engine.connection_count(), 0);
}

#[test]
fn engine_errors_name_the_connection() {
    let mut engine = AudioEngine::new();
    let id = test_id();
    match engine.remove_connection(&id) {
        Err(Error::ConnectionNotFound(text)) => assert_eq!(text, "LOCAL:Mic:1->LOCAL:Speaker:1"),
        _ => panic!("expected a missing connection"),
    }
    engine.create_connection(id.clone()).unwrap();
    match engine.create_connection(id.clone()) {
        Err(e) => assert_eq!(e.message(), "connection already exists: LOCAL:Mic:1->LOCAL:Speaker:1"),
        Ok(()) => panic!("expected a duplicate"),
    }
    match engine.set_destination_headroom_mode("LOCAL:Nowhere:9", HeadroomMode::Clip) {
        Err(Error::DestinationNotFound(text)) => assert_eq!(text, "LOCAL:Nowhere:9"),
        _ => panic!("expected a missing destination"),
    }
    assert!(engine.set_connection_muted(&test_id_2(), true).is_err());
}

#[test]
fn engine_create_then_remove_keeps_the_destination() {
    let mut engine = AudioEngine::new();
    let id1 = test_id();
    let id2 = test_id_2();
    engine.create_connection(id1.clone()).unwrap();
    engine.create_connection(id2.clone()).unwrap();
    engine.remove_connection(&id1).unwrap();
    assert_eq!(engine.connection_count(), 1);
    assert_eq!(engine.destination_count(), 1);
    let dest = engine.get_destination(&id1.destination_id()).unwrap();
    assert_eq!(dest.source_count(), 1);
    assert_eq!(dest.source(0).id(), &id2);
    engine.remove_connection(&id2).unwrap();
    assert_eq!(engine.connection_count(), 0);
    assert_eq!(engine.destination_count(), 1);
}

#[test]
fn batch_results_follow_order() {
    let mut engine = AudioEngine::new();
    let a = ConnectionId::local("Mic", 1, "Out", 1);
    let b = ConnectionId::local("Mic", 2, "Out", 1);
    engine.create_connection(b.clone()).unwrap();
    let results = engine.batch_create_connections(vec![a.clone(), b.clone(), a.clone()]);
    assert!(results[0].is_ok());
    assert!(results[1].is_err());
    assert!(results[2].is_err());
    assert_eq!(engine.connection_count(), 2);
    let removed = engine.batch_remove_connections(&[a.clone(), a.clone(), b.clone()]);
    assert!(removed[0].is_ok());
    assert!(removed[1].is_err());
    assert!(removed[2].is_ok());
    assert_eq!(engine.connection_count(), 0);
    let looked = engine.lookup_connections(&[a]);
    assert!(looked[0].is_err());
}
