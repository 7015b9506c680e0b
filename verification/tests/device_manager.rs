use std::time::Instant;

use ram::device::{DeviceConfig, DeviceDirection, DeviceEvent, DeviceManagerConfig, DeviceState, SampleFormat};
use ram::device_manager::{config_from_range, scanned_device, DeviceManager};

fn found(name: &str, direction: DeviceDirection, default: Option<&str>) -> ram::device::DeviceInfo {
    scanned_device(
        name.to_string(),
        direction,
        default,
        "ALSA",
        vec![DeviceConfig::default_config()],
        Instant::now(),
    )
}

#[test]
fn manager_device_manager_creation() {
    let config = DeviceManagerConfig { auto_refresh: false, ..Default::default() };
    let manager = DeviceManager::new(config);
    assert_eq!(manager.device_count(), 0);
}

#[test]
fn device_device_manager_creation() {
    let config = DeviceManagerConfig { auto_refresh: false, ..Default::default() };
    let manager = DeviceManager::new(config);
    assert_eq!(manager.device_count(), 0);
}

#[test]
fn manager_device_manager_by_direction() {
    let mut manager = DeviceManager::with_defaults();
    manager.apply_scan(
        vec![found("Mic", DeviceDirection::Input, None), found("Speakers", DeviceDirection::Output, None)],
        Instant::now(),
    );

    let inputs = manager.input_devices();
    let outputs = manager.output_devices();

    for device in &inputs {
        assert_eq!(device.direction, DeviceDirection::Input);
    }
    for device in &outputs {
        assert_eq!(device.direction, DeviceDirection::Output);
    }
    assert_eq!(inputs.len(), 1);
    assert_eq!(outputs.len(), 1);
}

#[test]
fn device_device_manager_by_direction() {
    let mut manager = DeviceManager::with_defaults();
    manager.apply_scan(vec![found("Line", DeviceDirection::Input, None)], Instant::now());
    for device in &manager.input_devices() {
        assert_eq!(device.direction, DeviceDirection::Input);
    }
    assert!(manager.output_devices().is_empty());
}

#[test]
fn scanned_device_identity_and_default() {
    let d = found("USB Mic", DeviceDirection::Input, Some("USB Mic"));
    assert_eq!(d.id, "ALSA:input:USB Mic");
    assert!(d.is_default);
    assert!(!d.is_virtual);
    assert!(d.display_name.is_none());
    let o = found("Out", DeviceDirection::Output, Some("Other"));
    assert_eq!(o.id, "ALSA:output:Out");
    assert!(!o.is_default);
}

#[test]
fn config_from_range_defaults_unknown_buffers() {
    let c = config_from_range(2, 44100, 96000, None, SampleFormat::F32);
    assert_eq!((c.channels_min, c.channels_max), (2, 2));
    assert_eq!((c.buffer_size_min, c.buffer_size_max), (64, 4096));
    let c = config_from_range(8, 48000, 48000, Some((32, 1024)), SampleFormat::I16);
    assert_eq!((c.buffer_size_min, c.buffer_size_max), (32, 1024));
    assert_eq!(c.sample_rate_min, 48000);
}

#[test]
fn scan_announces_arrivals_and_departures() {
    let mut manager = DeviceManager::with_defaults();
    let events = manager.apply_scan(
        vec![found("A", DeviceDirection::Input, None), found("B", DeviceDirection::Output, None)],
        Instant::now(),
    );
    assert_eq!(events.len(), 2);
    assert!(matches!(&events[0], DeviceEvent::Added(d) if d.id == "ALSA:input:A"));
    assert!(matches!(&events[1], DeviceEvent::Added(d) if d.id == "ALSA:output:B"));
    assert_eq!(manager.device_state("ALSA:input:A"), Some(DeviceState::Idle));

    // A second scan without A: B is kept silently, A goes away.
    let events = manager.apply_scan(vec![found("B", DeviceDirection::Output, None)], Instant::now());
    assert_eq!(events.len(), 1);
    match &events[0] {
        DeviceEvent::Removed { id, name } => {
            assert_eq!(id, "ALSA:input:A");
            assert_eq!(name, "A");
        },
        other => panic!("unexpected {other:?}"),
    }
    assert_eq!(manager.device_count(), 1);
    assert!(manager.get_device("ALSA:input:A").is_none());
    assert_eq!(manager.device_state("ALSA:input:A"), Some(DeviceState::Disconnected));

    // Coming back gives a fresh idle state.
    let events = manager.apply_scan(
        vec![found("A", DeviceDirection::Input, None), found("B", DeviceDirection::Output, None)],
        Instant::now(),
    );
    assert_eq!(events.len(), 1);
    assert_eq!(manager.device_state("ALSA:input:A"), Some(DeviceState::Idle));
}

#[test]
fn state_changes_announce_only_real_changes() {
    let mut manager = DeviceManager::with_defaults();
    manager.apply_scan(vec![found("A", DeviceDirection::Input, None)], Instant::now());
    let id = "ALSA:input:A";
    assert!(manager.set_device_state(id, DeviceState::Idle).is_none());
    match manager.set_device_state(id, DeviceState::Running) {
        Some(DeviceEvent::StateChanged { old_state, new_state, .. }) => {
            assert_eq!(old_state, DeviceState::Idle);
            assert_eq!(new_state, DeviceState::Running);
        },
        other => panic!("unexpected {other:?}"),
    }
    assert!(manager.transition_device_state(id, DeviceState::Idle, DeviceState::Stopped).is_none());
    assert!(manager.transition_device_state(id, DeviceState::Running, DeviceState::Stopped).is_some());
    assert_eq!(manager.device_state(id), Some(DeviceState::Stopped));
    assert!(manager.set_device_state("nope", DeviceState::Running).is_none());
}

#[test]
fn default_devices_are_found() {
    let mut manager = DeviceManager::with_defaults();
    manager.apply_scan(
        vec![found("A", DeviceDirection::Input, Some("A")), found("B", DeviceDirection::Output, None)],
        Instant::now(),
    );
    assert_eq!(manager.default_input().unwrap().name, "A");
    assert!(manager.default_output().is_none());
    assert!(DeviceManager::is_stale_after(11, 10));
    assert!(!DeviceManager::is_stale_after(10, 10));
}
