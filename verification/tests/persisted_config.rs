use ram::persistence::{PersistedConfig, PersistedRoute, VirtualDeviceConfig};

#[test]
fn persistence_persisted_config_new() {
    let config = PersistedConfig::new();
    assert_eq!(config.version, 1);
    assert!(config.node.is_none());
    assert!(config.routes.is_empty());
    assert!(config.settings.is_empty());
}

#[test]
fn persistence_persisted_config_with_node() {
    let config = PersistedConfig::with_node("TestNode".into(), 8080, 6980);
    let node = config.node.unwrap();
    assert_eq!(node.name, "TestNode");
    assert_eq!(node.api_port, 8080);
    assert_eq!(node.vban_port, 6980);
}

#[test]
fn persistence_persisted_config_add_route() {
    let mut config = PersistedConfig::new();
    config.add_route(PersistedRoute {
        source_node: "node-a".into(),
        source_device: "dev-1".into(),
        source_channel: 1,
        destination_node: "node-b".into(),
        destination_device: "dev-2".into(),
        destination_channel: 1,
        volume_bits: 1.0f32.to_bits(),
        muted: false,
    });

    assert_eq!(config.routes.len(), 1);
}

#[test]
fn persistence_persisted_config_remove_route() {
    let mut config = PersistedConfig::new();
    config.add_route(PersistedRoute {
        source_node: "node-a".into(),
        source_device: "dev-1".into(),
        source_channel: 1,
        destination_node: "node-b".into(),
        destination_device: "dev-2".into(),
        destination_channel: 1,
        volume_bits: 1.0f32.to_bits(),
        muted: false,
    });

    let removed = config.remove_route("node-a", "dev-1", 1, "node-b", "dev-2", 1);
    assert!(removed);
    assert!(config.routes.is_empty());

    let removed_again = config.remove_route("node-a", "dev-1", 1, "node-b", "dev-2", 1);
    assert!(!removed_again);
}

#[test]
fn persistence_persisted_config_settings() {
    let mut config = PersistedConfig::new();
    config.set_setting("key1".into(), "value1".into());

    assert_eq!(config.get_setting("key1"), Some(&"value1".to_string()));
    assert_eq!(config.get_setting("nonexistent"), None);
}

#[test]
fn config_persisted_config_new() {
    let config = PersistedConfig::new();
    assert_eq!(config.version, 1);
    assert!(config.node.is_none());
    assert!(config.routes.is_empty());
    assert!(config.settings.is_empty());
}

#[test]
fn config_persisted_config_with_node() {
    let config = PersistedConfig::with_node("TestNode".into(), 8080, 6980);
    let node = config.node.unwrap();
    assert_eq!(node.name, "TestNode");
    assert_eq!(node.api_port, 8080);
    assert_eq!(node.vban_port, 6980);
}

#[test]
fn config_persisted_config_add_route() {
    let mut config = PersistedConfig::new();
    config.add_route(PersistedRoute {
        source_node: "node-a".into(),
        source_device: "dev-1".into(),
        source_channel: 1,
        destination_node: "node-b".into(),
        destination_device: "dev-2".into(),
        destination_channel: 1,
        volume_bits: 1.0f32.to_bits(),
        muted: false,
    });

    assert_eq!(config.routes.len(), 1);
}

#[test]
fn config_persisted_config_remove_route() {
    let mut config = PersistedConfig::new();
    config.add_route(PersistedRoute {
        source_node: "node-a".into(),
        source_device: "dev-1".into(),
        source_channel: 1,
        destination_node: "node-b".into(),
        destination_device: "dev-2".into(),
        destination_channel: 1,
        volume_bits: 1.0f32.to_bits(),
        muted: false,
    });

    let removed = config.remove_route("node-a", "dev-1", 1, "node-b", "dev-2", 1);
    assert!(removed);
    assert!(config.routes.is_empty());

    let removed_again = config.remove_route("node-a", "dev-1", 1, "node-b", "dev-2", 1);
    assert!(!removed_again);
}

#[test]
fn config_persisted_config_settings() {
    let mut config = PersistedConfig::new();
    config.set_setting("key1".into(), "value1".into());

    assert_eq!(config.get_setting("key1"), Some(&"value1".to_string()));
    assert_eq!(config.get_setting("nonexistent"), None);
}

#[test]
fn persisted_config_device_attachment() {
    let mut config = PersistedConfig::new();

    config.attach_device("dev-1".into(), Some("Main Mic".into()));
    config.attach_device("dev-2".into(), None);

    let attached = config.attached_device_ids();
    assert_eq!(attached.len(), 2);
    assert!(attached.contains(&"dev-1"));
    assert!(attached.contains(&"dev-2"));

    config.detach_device("dev-1");
    let attached = config.attached_device_ids();
    assert_eq!(attached.len(), 1);
    assert!(!attached.contains(&"dev-1"));
}

#[test]
fn persisted_config_channel_labels() {
    let mut config = PersistedConfig::new();

    assert!(config.set_channel_label("dev-1", 1, "Kick".into()));
    assert!(config.set_channel_label("dev-1", 2, "Snare".into()));

    let labels = config.get_channel_labels("dev-1").unwrap();
    assert_eq!(labels.get_label(1), Some(&"Kick".to_string()));
    assert_eq!(labels.get_label(2), Some(&"Snare".to_string()));
}

#[test]
fn persisted_config_virtual_devices() {
    let mut config = PersistedConfig::new();

    config.add_virtual_device(VirtualDeviceConfig {
        name: "Virtual In".into(),
        input_channels: 16,
        output_channels: 0,
        sample_rate: 48000,
        buffer_size: 64,
    });

    assert_eq!(config.virtual_devices.len(), 1);

    let removed = config.remove_virtual_device("Virtual In");
    assert!(removed);
    assert!(config.virtual_devices.is_empty());
}

#[test]
fn persisted_config_rejects_invalid_virtual_device() {
    let mut config = PersistedConfig::new();
    config.add_virtual_device(VirtualDeviceConfig {
        name: "Bad".into(),
        input_channels: 0,
        output_channels: 0,
        sample_rate: 48000,
        buffer_size: 64,
    });
    assert!(config.virtual_devices.is_empty());
    assert!(!config.remove_virtual_device("Bad"));
}

#[test]
fn persisted_config_reattach_keeps_name_and_one_record() {
    let mut config = PersistedConfig::new();
    config.attach_device("d".into(), Some("Desk".into()));
    config.detach_device("d");
    config.attach_device("d".into(), None);
    assert_eq!(config.attached_devices.len(), 1);
    assert_eq!(config.attached_devices[0].display_name.as_deref(), Some("Desk"));
    assert!(config.attached_devices[0].attached);
}

#[test]
fn persisted_config_setting_replaced_and_label_refused() {
    let mut config = PersistedConfig::new();
    config.set_setting("k".into(), "1".into());
    config.set_setting("k".into(), "2".into());
    assert_eq!(config.settings.len(), 1);
    assert_eq!(config.get_setting("k").map(|s| s.as_str()), Some("2"));
    assert!(!config.set_channel_label("d", 1, "z".repeat(32)));
    assert!(config.get_channel_labels("d").unwrap().get_label(1).is_none());
}

#[test]
fn persisted_config_lists_attached_devices_only() {
    let mut config = PersistedConfig::new();
    config.attach_device("a".into(), Some("Desk".into()));
    config.attach_device("b".into(), None);
    config.detach_device("a");
    let attached = config.attached_devices();
    assert_eq!(attached.len(), 1);
    assert_eq!(attached[0].id, "b");
    assert!(attached[0].attached);
    assert_eq!(config.attached_devices.len(), 2);
}
