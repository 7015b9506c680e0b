use ram::asio::host::{device_info_from_ranges, ConfigRange};
use ram::asio::device::{AsioDeviceConfig, AsioDeviceInfo};
use ram::asio::error::AsioError;
use ram::asio::is_asio_available;
use ram::asio::stream::{AsioStreamBuilder, AsioStreamConfig, StreamState};
use ram::asio::virtual_device::{
    SharedMemoryHeader, VirtualDevice, VirtualDeviceConfig, BUFFER_SWITCH_REQ, DRIVER_RUNNING, SERVICE_CONNECTED,
    SHARED_MEMORY_MAGIC, SHARED_MEMORY_VERSION,
};

#[test]
fn asio_device_info_supports_sample_rate() {
    let info = AsioDeviceInfo {
        name: "Test".to_string(),
        input_channels: 2,
        output_channels: 2,
        sample_rates: vec![44100, 48000, 96000],
        buffer_size_min: 64,
        buffer_size_max: 4096,
    };

    assert!(info.supports_sample_rate(48000));
    assert!(!info.supports_sample_rate(22050));
}

#[test]
fn device_info_supports_buffer_size() {
    let info = AsioDeviceInfo {
        name: "Test".to_string(),
        input_channels: 2,
        output_channels: 2,
        sample_rates: vec![48000],
        buffer_size_min: 64,
        buffer_size_max: 4096,
    };

    assert!(info.supports_buffer_size(256));
    assert!(info.supports_buffer_size(64));
    assert!(info.supports_buffer_size(4096));
    assert!(!info.supports_buffer_size(32));
    assert!(!info.supports_buffer_size(8192));
}

#[test]
fn device_info_has_input_output() {
    let input_only = AsioDeviceInfo {
        name: "Input".to_string(),
        input_channels: 2,
        output_channels: 0,
        sample_rates: vec![48000],
        buffer_size_min: 64,
        buffer_size_max: 4096,
    };

    assert!(input_only.has_input());
    assert!(!input_only.has_output());

    let output_only = AsioDeviceInfo {
        name: "Output".to_string(),
        input_channels: 0,
        output_channels: 2,
        sample_rates: vec![48000],
        buffer_size_min: 64,
        buffer_size_max: 4096,
    };

    assert!(!output_only.has_input());
    assert!(output_only.has_output());
}

#[test]
fn device_default_config() {
    let config = AsioDeviceConfig::default();
    assert_eq!(config.sample_rate, 48000);
    assert_eq!(config.buffer_size, 256);
    assert_eq!(config.input_channels, 2);
    assert_eq!(config.output_channels, 2);
}

#[test]
fn error_display_not_available() {
    let err = AsioError::NotAvailable;
    assert_eq!(err.to_string(), "ASIO is not available (Windows only with 'asio' feature)");
}

#[test]
fn error_display_host_init_failed() {
    let err = AsioError::HostInitFailed("test error".to_string());
    assert_eq!(err.to_string(), "failed to initialize ASIO host: test error");
}

#[test]
fn error_display_device_not_found() {
    let err = AsioError::DeviceNotFound("MyDevice".to_string());
    assert_eq!(err.to_string(), "ASIO device not found: MyDevice");
}

#[test]
fn error_display_device_open_failed() {
    let err = AsioError::DeviceOpenFailed { name: "MyDevice".to_string(), reason: "busy".to_string() };
    assert_eq!(err.to_string(), "failed to open ASIO device 'MyDevice': busy");
}

#[test]
fn error_display_stream_start_failed() {
    let err = AsioError::StreamStartFailed("timeout".to_string());
    assert_eq!(err.to_string(), "failed to start ASIO stream: timeout");
}

#[test]
fn error_display_stream_error() {
    let err = AsioError::StreamError("underrun".to_string());
    assert_eq!(err.to_string(), "ASIO stream error: underrun");
}

#[test]
fn error_display_config_error() {
    let err = AsioError::ConfigError("invalid rate".to_string());
    assert_eq!(err.to_string(), "invalid ASIO configuration: invalid rate");
}

#[test]
fn error_display_buffer_size_not_supported() {
    let err = AsioError::BufferSizeNotSupported { requested: 32, min: 64, max: 4096 };
    assert_eq!(err.to_string(), "buffer size 32 not supported (min: 64, max: 4096)");
}

#[test]
fn error_display_sample_rate_not_supported() {
    let err = AsioError::SampleRateNotSupported(22050);
    assert_eq!(err.to_string(), "sample rate 22050 Hz not supported by device");
}

#[test]
fn error_display_channel_count_exceeded() {
    let err = AsioError::ChannelCountExceeded { requested: 64, max: 32 };
    assert_eq!(err.to_string(), "channel count 64 exceeds device maximum 32");
}

#[test]
fn error_display_device_busy() {
    let err = AsioError::DeviceBusy("Dante".to_string());
    assert_eq!(err.to_string(), "ASIO device 'Dante' is busy (in use by another application)");
}

#[test]
fn error_display_cpal_error() {
    let err = AsioError::CpalError("unknown".to_string());
    assert_eq!(err.to_string(), "cpal error: unknown");
}

#[test]
fn error_debug_impl() {
    let err = AsioError::NotAvailable;
    let debug = format!("{:?}", err);
    assert!(debug.contains("NotAvailable"));
}

#[test]
fn is_asio_available_returns_false_on_non_windows() {
    assert!(!is_asio_available());
}

#[test]
fn stream_stream_config_default() {
    let config = AsioStreamConfig::default();
    assert_eq!(config.sample_rate, 48000);
    assert_eq!(config.buffer_size, 256);
    assert_eq!(config.channels, 2);
}

#[test]
fn stream_builder() {
    let config = AsioStreamBuilder::new().sample_rate(96000).buffer_size(128).channels(8).build();

    assert_eq!(config.sample_rate, 96000);
    assert_eq!(config.buffer_size, 128);
    assert_eq!(config.channels, 8);
}

#[test]
fn stream_state_values() {
    assert_eq!(StreamState::Stopped as u8, 0);
    assert_eq!(StreamState::Running as u8, 1);
    assert_eq!(StreamState::Error as u8, 2);
}

#[test]
fn virtual_device_default_config() {
    let config = VirtualDeviceConfig::default();
    assert_eq!(config.name, "AudioMatrix Virtual");
    assert_eq!(config.input_channels, 2);
    assert_eq!(config.output_channels, 2);
    assert_eq!(config.sample_rate, 48000);
    assert_eq!(config.buffer_size, 256);
}

#[test]
fn flags_values() {
    assert_eq!(SERVICE_CONNECTED, 1);
    assert_eq!(DRIVER_RUNNING, 2);
    assert_eq!(BUFFER_SWITCH_REQ, 4);
}

#[test]
fn virtual_device_new_refused_without_asio() {
    let result = VirtualDevice::new(VirtualDeviceConfig::default());
    assert!(matches!(result, Err(AsioError::NotAvailable)));
}

#[test]
fn asio_not_available_on_non_windows() {
    let result = ram::asio::host::AsioHost::new();
    assert!(matches!(result, Err(AsioError::NotAvailable)));
}

#[test]
fn device_infos_not_available_on_non_windows() {
    let result = ram::asio::host::AsioHost::new();
    assert!(matches!(result, Err(AsioError::NotAvailable)));
}

#[test]
fn device_by_name_not_available_on_non_windows() {
    let result = ram::asio::host::AsioHost::new();
    assert!(matches!(result, Err(AsioError::NotAvailable)));
}

#[test]
fn get_asio_host_returns_none_on_non_windows() {
    assert!(ram::asio::get_asio_host().is_none());
}

#[test]
fn virtual_device_not_available_on_non_windows() {
    let config = VirtualDeviceConfig::default();
    let result = VirtualDevice::new(config);
    assert!(matches!(result, Err(AsioError::NotAvailable)));
}

#[test]
fn re_exports_are_accessible() {
    let _: fn() -> Result<ram::asio::host::AsioHost, AsioError> = ram::asio::host::AsioHost::new;
    let config = AsioDeviceConfig::default();
    assert_eq!(config.sample_rate, 48000);
}

#[test]
fn shared_memory_header_size() {
    assert_eq!(std::mem::size_of::<SharedMemoryHeader>(), 64);
}

#[test]
fn shared_memory_header_for_device() {
    let config = VirtualDeviceConfig {
        name: "VD".to_string(),
        input_channels: 2,
        output_channels: 8,
        sample_rate: 96000,
        buffer_size: 128,
    };
    let h = SharedMemoryHeader::for_device(&config);
    assert_eq!(h.magic, SHARED_MEMORY_MAGIC);
    assert_eq!(h.magic.to_be_bytes(), *b"AUDIOMTX");
    assert_eq!(h.version, SHARED_MEMORY_VERSION);
    assert_eq!(h.channels, 8);
    assert_eq!(h.sample_rate, 96000);
    assert_eq!(h.buffer_size, 128);
    assert_eq!((h.read_pos, h.write_pos), (0, 0));
    assert_eq!(h.flags, SERVICE_CONNECTED);
    assert_eq!(h.reserved, [0u8; 16]);
}

#[test]
fn device_info_from_reported_ranges() {
    let range = |channels: u16, min: u32, max: u32, buffer: Option<(u32, u32)>| ConfigRange {
        channels,
        min_sample_rate: min,
        max_sample_rate: max,
        buffer_size: buffer,
    };
    let info = device_info_from_ranges(
        "Interface".to_string(),
        Some(vec![range(2, 44100, 48000, None), range(8, 44100, 48000, None)]),
        Some(vec![range(4, 44100, 96000, Some((32, 2048))), range(2, 176400, 192000, None)]),
    );
    assert_eq!(info.name, "Interface");
    assert_eq!(info.input_channels, 8);
    assert_eq!(info.output_channels, 4);
    assert_eq!(info.sample_rates, vec![44100, 48000, 88200, 96000, 176400, 192000]);
    assert_eq!((info.buffer_size_min, info.buffer_size_max), (32, 2048));

    let bare = device_info_from_ranges("Bare".to_string(), None, Some(vec![range(2, 48000, 48000, None)]));
    assert_eq!(bare.input_channels, 0);
    assert_eq!(bare.sample_rates, vec![48000]);
    assert_eq!((bare.buffer_size_min, bare.buffer_size_max), (64, 4096));
}
