use ram::device::{
    AtomicAttachmentState, AtomicDeviceState, AttachmentState, DeviceConfig, DeviceDirection, DeviceInfo,
    DeviceManagerConfig, DeviceState,
};
use std::time::{Duration, Instant};

fn test_info(configs: Vec<DeviceConfig>) -> DeviceInfo {
    DeviceInfo {
        id: "test".to_string(),
        name: "Test Device".to_string(),
        display_name: None,
        direction: DeviceDirection::Output,
        host: "Test".to_string(),
        is_default: false,
        is_virtual: false,
        attachment_state: AttachmentState::Available,
        configs,
        last_seen: Instant::now(),
    }
}

fn check_device_state_from_u8() {
    assert_eq!(DeviceState::from_u8(0), Some(DeviceState::Idle));
    assert_eq!(DeviceState::from_u8(1), Some(DeviceState::Starting));
    assert_eq!(DeviceState::from_u8(2), Some(DeviceState::Running));
    assert_eq!(DeviceState::from_u8(3), Some(DeviceState::Error));
    assert_eq!(DeviceState::from_u8(4), Some(DeviceState::Stopped));
    assert_eq!(DeviceState::from_u8(5), Some(DeviceState::Disconnected));
    assert_eq!(DeviceState::from_u8(6), None);
}

fn check_device_state_availability() {
    assert!(DeviceState::Idle.is_available());
    assert!(DeviceState::Stopped.is_available());
    assert!(!DeviceState::Running.is_available());
    assert!(!DeviceState::Error.is_available());
}

fn check_device_state_active() {
    assert!(DeviceState::Starting.is_active());
    assert!(DeviceState::Running.is_active());
    assert!(!DeviceState::Idle.is_active());
    assert!(!DeviceState::Stopped.is_active());
}

fn check_atomic_device_state() {
    let state = AtomicDeviceState::new(DeviceState::Idle);
    assert_eq!(state.load(), DeviceState::Idle);

    state.store(DeviceState::Running);
    assert_eq!(state.load(), DeviceState::Running);

    assert!(state.compare_exchange(DeviceState::Running, DeviceState::Stopped));
    assert_eq!(state.load(), DeviceState::Stopped);

    assert!(!state.compare_exchange(DeviceState::Running, DeviceState::Error));
    assert_eq!(state.load(), DeviceState::Stopped);
}

fn check_device_direction_display() {
    assert_eq!(DeviceDirection::Input.to_string(), "input");
    assert_eq!(DeviceDirection::Output.to_string(), "output");
}

fn check_device_state_display() {
    assert_eq!(DeviceState::Idle.to_string(), "idle");
    assert_eq!(DeviceState::Running.to_string(), "running");
    assert_eq!(DeviceState::Error.to_string(), "error");
}

fn check_device_config_default() {
    let config = DeviceConfig::default_config();
    assert_eq!(config.channels_min, 1);
    assert_eq!(config.channels_max, 2);
    assert_eq!(config.sample_rate_min, 44100);
    assert_eq!(config.sample_rate_max, 48000);
}

fn check_device_info_supports_sample_rate() {
    let info = test_info(vec![DeviceConfig::default_config()]);
    assert!(info.supports_sample_rate(44100));
    assert!(info.supports_sample_rate(48000));
    assert!(!info.supports_sample_rate(96000));
}

fn check_device_info_supports_channels() {
    let info = test_info(vec![DeviceConfig::default_config()]);
    assert!(info.supports_channels(1));
    assert!(info.supports_channels(2));
    assert!(!info.supports_channels(8));
}

fn check_device_manager_config_default() {
    let config = DeviceManagerConfig::default();
    assert_eq!(config.poll_interval, Duration::from_secs(2));
    assert_eq!(config.cache_ttl, Duration::from_secs(10));
    assert!(config.auto_refresh);
}

#[test]
fn device_device_state_from_u8() {
    check_device_state_from_u8();
}

#[test]
fn types_device_state_from_u8() {
    check_device_state_from_u8();
}

#[test]
fn device_device_state_availability() {
    check_device_state_availability();
}

#[test]
fn types_device_state_availability() {
    check_device_state_availability();
}

#[test]
fn device_device_state_active() {
    check_device_state_active();
}

#[test]
fn types_device_state_active() {
    check_device_state_active();
}

#[test]
fn device_atomic_device_state() {
    check_atomic_device_state();
}

#[test]
fn types_atomic_device_state() {
    check_atomic_device_state();
}

#[test]
fn device_device_direction_display() {
    check_device_direction_display();
}

#[test]
fn types_device_direction_display() {
    check_device_direction_display();
}

#[test]
fn device_device_state_display() {
    check_device_state_display();
}

#[test]
fn types_device_state_display() {
    check_device_state_display();
}

#[test]
fn device_device_config_default() {
    check_device_config_default();
}

#[test]
fn types_device_config_default() {
    check_device_config_default();
}

#[test]
fn device_device_info_supports_sample_rate() {
    check_device_info_supports_sample_rate();
}

#[test]
fn types_device_info_supports_sample_rate() {
    check_device_info_supports_sample_rate();
}

#[test]
fn device_device_info_supports_channels() {
    check_device_info_supports_channels();
}

#[test]
fn types_device_info_supports_channels() {
    check_device_info_supports_channels();
}

#[test]
fn device_device_manager_config_default() {
    check_device_manager_config_default();
}

#[test]
fn manager_device_manager_config_default() {
    check_device_manager_config_default();
}

#[test]
fn attachment_state_default_is_available() {
    assert_eq!(AttachmentState::default(), AttachmentState::Available);
    assert!(AttachmentState::Available.needs_attach());
    assert!(!AttachmentState::Available.can_route());
}

#[test]
fn attachment_state_transitions() {
    assert!(AttachmentState::Attached.can_route());
    assert!(AttachmentState::Active.can_route());
    assert!(AttachmentState::Active.is_streaming());
    assert!(!AttachmentState::Attached.is_streaming());
    assert!(AttachmentState::Detached.needs_attach());
}

#[test]
fn attachment_state_codes_roundtrip() {
    for s in [
        AttachmentState::Available,
        AttachmentState::Attached,
        AttachmentState::Active,
        AttachmentState::Detached,
        AttachmentState::Error,
    ] {
        assert_eq!(AttachmentState::from_u8(s.to_u8()), Some(s));
    }
    assert_eq!(AttachmentState::from_u8(5), None);
    assert_eq!(AttachmentState::Detached.to_string(), "detached");
    let a = AtomicAttachmentState::default();
    assert_eq!(a.load(), AttachmentState::Available);
    assert!(a.compare_exchange(AttachmentState::Available, AttachmentState::Attached));
    assert_eq!(a.load(), AttachmentState::Attached);
}

#[test]
fn device_info_max_channels_and_display_name() {
    let mut info = test_info(vec![]);
    assert_eq!(info.max_channels(), 2);
    let mut wide = DeviceConfig::default_config();
    wide.channels_max = 16;
    info.configs = vec![DeviceConfig::default_config(), wide, DeviceConfig::default_config()];
    assert_eq!(info.max_channels(), 16);
    assert_eq!(info.display_name(), "Test Device");
    info.display_name = Some("Alias".to_string());
    assert_eq!(info.display_name(), "Alias");
    assert!(!info.can_route());
    info.attachment_state = AttachmentState::Active;
    assert!(info.can_route());
    assert!(info.is_streaming());
}
