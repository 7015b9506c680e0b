//! Virtual ASIO device configuration. The device itself needs the Windows
//! shared-memory driver; elsewhere it cannot be created.

use vstd::prelude::*;
use crate::asio::error::AsioError;

verus! {

/// Flag: the service is connected to the shared memory.
pub const SERVICE_CONNECTED: u64 = 1;
/// Flag: the driver is running.
pub const DRIVER_RUNNING: u64 = 2;
/// Flag: a buffer switch was requested.
pub const BUFFER_SWITCH_REQ: u64 = 4;

/// Magic number of the shared memory ("AUDIOMTX").
pub const SHARED_MEMORY_MAGIC: u64 = 0x4155_4449_4F4D_5458;

/// Version of the shared-memory protocol.
pub const SHARED_MEMORY_VERSION: u32 = 1;

/// The header at the start of the shared memory the driver connects to:
/// eight 64-bit and four 32-bit words and 16 reserved bytes, 64 bytes in
/// all, in this order.
#[derive(Debug, Clone, Copy)]
pub struct SharedMemoryHeader {
    /// Magic number for validation.
    pub magic: u64,
    /// Protocol version.
    pub version: u32,
    /// Number of channels.
    pub channels: u32,
    /// Sample rate in Hz.
    pub sample_rate: u32,
    /// Buffer size in samples per channel.
    pub buffer_size: u32,
    /// Ring buffer read position.
    pub read_pos: u64,
    /// Ring buffer write position.
    pub write_pos: u64,
    /// Status flags.
    pub flags: u64,
    /// Reserved for future use.
    pub reserved: [u8; 16],
}

impl SharedMemoryHeader {
    /// The header a new shared memory starts with for a device: the magic
    /// number and version, as many channels as the device has in its wider
    /// direction, its rate and buffer size, both positions at zero, and the
    /// service marked connected.
    pub fn for_device(config: &VirtualDeviceConfig) -> (r: Self)
        ensures
            r.magic == SHARED_MEMORY_MAGIC,
            r.version == SHARED_MEMORY_VERSION,
            r.channels == if config.input_channels >= config.output_channels {
                config.input_channels
            } else {
                config.output_channels
            },
            r.sample_rate == config.sample_rate,
            r.buffer_size == config.buffer_size,
            r.read_pos == 0,
            r.write_pos == 0,
            r.flags == SERVICE_CONNECTED,
            forall|i: int| 0 <= i < 16 ==> r.reserved[i] == 0,
    {
        let channels = if config.input_channels >= config.output_channels {
            config.input_channels
        } else {
            config.output_channels
        };
        SharedMemoryHeader {
            magic: SHARED_MEMORY_MAGIC,
            version: SHARED_MEMORY_VERSION,
            channels,
            sample_rate: config.sample_rate,
            buffer_size: config.buffer_size,
            read_pos: 0,
            write_pos: 0,
            flags: SERVICE_CONNECTED,
            reserved: [0u8; 16],
        }
    }
}

/// Configuration of a virtual ASIO device.
#[derive(Debug, Clone)]
pub struct VirtualDeviceConfig {
    /// Device name.
    pub name: String,
    /// Number of input channels.
    pub input_channels: u32,
    /// Number of output channels.
    pub output_channels: u32,
    /// Sample rate in Hz.
    pub sample_rate: u32,
    /// Buffer size in samples.
    pub buffer_size: u32,
}

impl Default for VirtualDeviceConfig {
    /// "AudioMatrix Virtual", stereo each way, 48 kHz, 256-sample buffers.
    fn default() -> (r: Self)
        ensures
            r.name@ == "AudioMatrix Virtual"@,
            r.input_channels == 2,
            r.output_channels == 2,
            r.sample_rate == 48000,
            r.buffer_size == 256,
    {
        VirtualDeviceConfig {
            name: String::from_str("AudioMatrix Virtual"),
            input_channels: 2,
            output_channels: 2,
            sample_rate: 48000,
            buffer_size: 256,
        }
    }
}

/// A virtual ASIO device.
#[derive(Debug)]
pub struct VirtualDevice {
    config: VirtualDeviceConfig,
}

impl VirtualDevice {
    /// The device's configuration.
    pub closed spec fn spec_config(&self) -> VirtualDeviceConfig {
        self.config
    }

    /// Creates the device; fails with `NotAvailable` off Windows.
    pub fn new(config: VirtualDeviceConfig) -> (r: Result<Self, AsioError>)
        ensures
            r matches Err(AsioError::NotAvailable),
    {
        Err(AsioError::NotAvailable)
    }

    /// The device's configuration.
    pub fn config(&self) -> (r: &VirtualDeviceConfig)
        ensures
            *r == self.spec_config(),
    {
        &self.config
    }

    /// Whether the driver is connected (never, off Windows).
    pub fn is_driver_connected(&self) -> (r: bool)
        ensures
            !r,
    {
        false
    }

    /// Whether the driver is running (never, off Windows).
    pub fn is_driver_running(&self) -> (r: bool)
        ensures
            !r,
    {
        false
    }
}

} // verus!
