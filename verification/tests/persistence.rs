use ram::persistence::{default_buffer_size, default_sample_rate, ChannelLabels, VirtualDeviceConfig};

#[test]
fn channel_labels_basic() {
    let mut labels = ChannelLabels::new("device-1".into());
    assert!(labels.set_label(1, "Mic L".into()));
    assert!(labels.set_label(2, "Mic R".into()));

    assert_eq!(labels.get_label(1), Some(&"Mic L".to_string()));
    assert_eq!(labels.get_label(2), Some(&"Mic R".to_string()));
    assert_eq!(labels.get_label(3), None);
}

#[test]
fn channel_labels_max_length() {
    let mut labels = ChannelLabels::new("device-1".into());

    // 31 chars should work
    let label_31 = "a".repeat(31);
    assert!(labels.set_label(1, label_31.clone()));
    assert_eq!(labels.get_label(1), Some(&label_31));

    // 32 chars should fail
    let label_32 = "a".repeat(32);
    assert!(!labels.set_label(2, label_32));
    assert_eq!(labels.get_label(2), None);
}

#[test]
fn channel_labels_empty_removes() {
    let mut labels = ChannelLabels::new("device-1".into());
    labels.set_label(1, "Test".into());
    assert!(labels.get_label(1).is_some());

    labels.set_label(1, String::new());
    assert!(labels.get_label(1).is_none());
}

#[test]
fn channel_labels_length_counts_characters() {
    let mut labels = ChannelLabels::new("device-1".into());
    // Eight four-byte characters: 32 bytes but 8 characters, which fit.
    assert!(labels.set_label(1, "\u{1F3B5}".repeat(8)));
    assert!(labels.set_label(2, "é".repeat(31)));
    assert!(!labels.set_label(3, "é".repeat(32)));
    assert!(labels.get_label(3).is_none());
}

#[test]
fn virtual_device_config_valid() {
    let config = VirtualDeviceConfig {
        name: "Virtual In".into(),
        input_channels: 8,
        output_channels: 0,
        sample_rate: 48000,
        buffer_size: 256,
    };
    assert!(config.is_valid());
}

#[test]
fn virtual_device_config_invalid_sample_rate() {
    let config = VirtualDeviceConfig {
        name: "Bad Rate".into(),
        input_channels: 2,
        output_channels: 0,
        sample_rate: 22050, // Not supported
        buffer_size: 256,
    };
    assert!(!config.is_valid());
}

#[test]
fn virtual_device_config_invalid_channels() {
    let config = VirtualDeviceConfig {
        name: "No Channels".into(),
        input_channels: 0,
        output_channels: 0,
        sample_rate: 48000,
        buffer_size: 256,
    };
    assert!(!config.is_valid());
}

#[test]
fn persisted_defaults() {
    assert_eq!(default_sample_rate(), 48000);
    assert_eq!(default_buffer_size(), 256);
}
