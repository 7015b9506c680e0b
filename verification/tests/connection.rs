use std::time::Duration;

use ram::connection::{
    AtomicConnectionState, ConnectionHealth, ConnectionId, ConnectionManager, ConnectionState, RetryConfig,
};

#[test]
fn connection_state_from_u8() {
    assert_eq!(ConnectionState::from(0), ConnectionState::Disconnected);
    assert_eq!(ConnectionState::from(1), ConnectionState::Connecting);
    assert_eq!(ConnectionState::from(2), ConnectionState::Connected);
    assert_eq!(ConnectionState::from(3), ConnectionState::Reconnecting);
    assert_eq!(ConnectionState::from(4), ConnectionState::Backoff);
    assert_eq!(ConnectionState::from(5), ConnectionState::Failed);
    assert_eq!(ConnectionState::from(99), ConnectionState::Disconnected);
}

#[test]
fn atomic_connection_state() {
    let state = AtomicConnectionState::new(ConnectionState::Disconnected);
    assert_eq!(state.load(), ConnectionState::Disconnected);

    state.store(ConnectionState::Connected);
    assert_eq!(state.load(), ConnectionState::Connected);

    assert!(state.compare_exchange(ConnectionState::Connected, ConnectionState::Disconnected));
    assert_eq!(state.load(), ConnectionState::Disconnected);

    assert!(!state.compare_exchange(ConnectionState::Connected, ConnectionState::Failed));
    assert_eq!(state.load(), ConnectionState::Disconnected);
}

#[test]
fn connection_health_tracking() {
    let mut health = ConnectionHealth::default();
    assert_eq!(health.connect_count, 0);
    assert_eq!(health.failure_count, 0);

    health.record_connected();
    assert_eq!(health.connect_count, 1);
    assert!(health.last_connected.is_some());

    health.record_failure();
    assert_eq!(health.failure_count, 1);
    assert!(health.last_failure.is_some());

    health.record_disconnected();
    assert_eq!(health.disconnect_count, 1);
    assert!(health.uptime.is_none());
}

#[test]
fn connection_id_new() {
    let id = ConnectionId::new("Node1", "Mic", 1, "Node2", "Speaker", 2);
    assert_eq!(id.source_node, "Node1");
    assert_eq!(id.source_device, "Mic");
    assert_eq!(id.source_channel, 1);
    assert_eq!(id.destination_node, "Node2");
    assert_eq!(id.destination_device, "Speaker");
    assert_eq!(id.destination_channel, 2);
}

#[test]
fn connection_id_local() {
    let id = ConnectionId::local("Mic", 1, "Speaker", 2);
    assert_eq!(id.source_node, "LOCAL");
    assert_eq!(id.destination_node, "LOCAL");
    assert!(id.is_local());
}

#[test]
fn connection_id_destination_id() {
    let id = ConnectionId::local("Mic", 1, "Speaker", 2);
    assert_eq!(id.destination_id(), "LOCAL:Speaker:2");
}

#[test]
fn connection_id_source_id() {
    let id = ConnectionId::local("Mic", 1, "Speaker", 2);
    assert_eq!(id.source_id(), "LOCAL:Mic:1");
}

#[test]
fn connection_id_display() {
    let id = ConnectionId::local("Mic", 1, "Speaker", 2);
    assert_eq!(id.to_string(), "LOCAL:Mic:1->LOCAL:Speaker:2");
}

#[test]
fn connection_id_equality() {
    let id1 = ConnectionId::local("Mic", 1, "Speaker", 2);
    let id2 = ConnectionId::local("Mic", 1, "Speaker", 2);
    let id3 = ConnectionId::local("Mic", 2, "Speaker", 2);

    assert_eq!(id1, id2);
    assert_ne!(id1, id3);
    assert!(id1.same_as(&id2));
    assert!(!id1.same_as(&id3));
}

#[test]
fn connection_id_try_new_rejects_zero_and_empty() {
    assert_eq!(
        ConnectionId::try_new("a", "b", 0, "c", "d", 1).unwrap_err(),
        "source channel must be 1-based (got 0)"
    );
    assert_eq!(
        ConnectionId::try_new("a", "b", 1, "c", "d", 0).unwrap_err(),
        "destination channel must be 1-based (got 0)"
    );
    assert_eq!(
        ConnectionId::try_new("", "b", 1, "c", "d", 1).unwrap_err(),
        "source node name cannot be empty"
    );
    assert_eq!(
        ConnectionId::try_new("a", "", 1, "c", "d", 1).unwrap_err(),
        "source device name cannot be empty"
    );
    assert_eq!(
        ConnectionId::try_new("a", "b", 1, "", "d", 1).unwrap_err(),
        "destination node name cannot be empty"
    );
    assert_eq!(
        ConnectionId::try_new("a", "b", 1, "c", "", 1).unwrap_err(),
        "destination device name cannot be empty"
    );
    let id = ConnectionId::try_new("a", "b", 3, "c", "d", 4).unwrap();
    assert_eq!(id.to_string(), "a:b:3->c:d:4");
}

#[test]
fn connection_state_code_roundtrip() {
    for code in 0u8..6 {
        assert_eq!(ConnectionState::from(code).to_u8(), code);
    }
}

#[test]
fn retry_config_default() {
    let config = RetryConfig::default();
    assert_eq!(Duration::from_nanos(config.initial_backoff_nanos), Duration::from_millis(500));
    assert_eq!(Duration::from_nanos(config.max_backoff_nanos), Duration::from_secs(30));
    assert!((config.backoff_multiplier_permille as f64 / 1000.0 - 2.0).abs() < f64::EPSILON);
    assert_eq!(config.max_retries, 0);
}

#[test]
fn connection_manager_basic_flow() {
    let mut manager = ConnectionManager::with_defaults();
    assert_eq!(manager.state(), ConnectionState::Disconnected);
    assert!(manager.can_connect());
    assert!(!manager.is_connected());

    // Connect flow
    assert!(manager.connect());
    assert_eq!(manager.state(), ConnectionState::Connecting);
    assert!(!manager.can_connect());

    assert!(manager.connected());
    assert_eq!(manager.state(), ConnectionState::Connected);
    assert!(manager.is_connected());

    // Disconnect flow
    assert!(manager.disconnected());
    assert_eq!(manager.state(), ConnectionState::Reconnecting);
    assert!(!manager.is_connected());
}

#[test]
fn connection_manager_failure_backoff() {
    let config = RetryConfig {
        initial_backoff_nanos: 100_000_000,
        max_backoff_nanos: 1_000_000_000,
        backoff_multiplier_permille: 2000,
        max_retries: 3,
        connect_timeout_nanos: 5_000_000_000,
    };
    let mut manager = ConnectionManager::new(config);

    // Start connection
    manager.connect();
    assert_eq!(manager.state(), ConnectionState::Connecting);

    // First failure
    let backoff1 = Duration::from_nanos(manager.failed().unwrap());
    assert_eq!(backoff1, Duration::from_millis(100));
    assert_eq!(manager.state(), ConnectionState::Backoff);
    assert_eq!(manager.retry_count(), 1);

    // Retry
    manager.connect();
    let backoff2 = Duration::from_nanos(manager.failed().unwrap());
    assert_eq!(backoff2, Duration::from_millis(200));
    assert_eq!(manager.retry_count(), 2);

    // Third retry - should fail permanently
    manager.connect();
    let backoff3 = manager.failed();
    assert!(backoff3.is_none());
    assert_eq!(manager.state(), ConnectionState::Failed);
    assert!(manager.is_failed());
}

#[test]
fn connection_manager_reset() {
    let mut manager = ConnectionManager::with_defaults();

    manager.connect();
    manager.connected();
    assert_eq!(manager.state(), ConnectionState::Connected);

    manager.reset();
    assert_eq!(manager.state(), ConnectionState::Disconnected);
    assert_eq!(manager.retry_count(), 0);
    assert_eq!(Duration::from_nanos(manager.current_backoff_nanos()), Duration::ZERO);
}

#[test]
fn connection_manager_health_metrics() {
    let mut manager = ConnectionManager::with_defaults();

    manager.connect();
    manager.connected();
    let health = manager.health();
    assert_eq!(health.connect_count, 1);

    manager.disconnected();
    manager.failed();
    let health = manager.health();
    assert_eq!(health.disconnect_count, 1);
    assert_eq!(health.failure_count, 1);
}

#[test]
fn connection_manager_backoff_caps_at_maximum() {
    let config = RetryConfig {
        initial_backoff_nanos: 400,
        max_backoff_nanos: 1000,
        backoff_multiplier_permille: 3000,
        max_retries: 0,
        connect_timeout_nanos: 1,
    };
    let mut manager = ConnectionManager::new(config);
    manager.connect();
    assert_eq!(manager.failed(), Some(400));
    manager.connect();
    assert_eq!(manager.failed(), Some(1000));
    manager.connect();
    assert_eq!(manager.failed(), Some(1000));
    // Failing outside an attempt changes nothing.
    assert_eq!(manager.failed(), None);
    assert_eq!(manager.retry_count(), 3);
    assert!(manager.backoff_elapsed_after(1000));
    assert!(!manager.backoff_elapsed_after(999));
}

#[test]
fn connection_manager_ignores_out_of_order_events() {
    let mut manager = ConnectionManager::with_defaults();
    assert!(!manager.connected());
    assert!(!manager.disconnected());
    assert_eq!(manager.state(), ConnectionState::Disconnected);
    assert!(manager.connect());
    assert!(!manager.connect());
}
