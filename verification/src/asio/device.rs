//! ASIO device information and configuration.

use vstd::prelude::*;
use crate::asio::error::AsioError;

verus! {

/// Information about an ASIO device.
#[derive(Debug, Clone)]
pub struct AsioDeviceInfo {
    /// Device name.
    pub name: String,
    /// Number of input channels.
    pub input_channels: u16,
    /// Number of output channels.
    pub output_channels: u16,
    /// Supported sample rates.
    pub sample_rates: Vec<u32>,
    /// Minimum buffer size in samples.
    pub buffer_size_min: u32,
    /// Maximum buffer size in samples.
    pub buffer_size_max: u32,
}

impl AsioDeviceInfo {
    /// Whether the device supports the given sample rate.
    pub fn supports_sample_rate(&self, rate: u32) -> (r: bool)
        ensures
            r == self.sample_rates@.contains(rate),
    {
        let n = self.sample_rates.len();
        let mut i: usize = 0;
        while i < n
            invariant
                n == self.sample_rates@.len(),
                i <= n,
                forall|j: int| 0 <= j < i ==> self.sample_rates@[j] != rate,
            decreases n - i,
        {
            if self.sample_rates[i] == rate {
                return true;
            }
            i = i + 1;
        }
        false
    }

    /// Whether the buffer size lies in the device's range, bounds included.
    pub fn supports_buffer_size(&self, size: u32) -> (r: bool)
        ensures
            r == (self.buffer_size_min <= size <= self.buffer_size_max),
    {
        size >= self.buffer_size_min && size <= self.buffer_size_max
    }

    /// Whether the device has inputs.
    pub fn has_input(&self) -> (r: bool)
        ensures
            r == (self.input_channels > 0),
    {
        self.input_channels > 0
    }

    /// Whether the device has outputs.
    pub fn has_output(&self) -> (r: bool)
        ensures
            r == (self.output_channels > 0),
    {
        self.output_channels > 0
    }
}

/// Configuration for opening an ASIO device.
#[derive(Debug, Clone, Copy)]
pub struct AsioDeviceConfig {
    /// Sample rate in Hz.
    pub sample_rate: u32,
    /// Buffer size in samples.
    pub buffer_size: u32,
    /// Number of input channels to use.
    pub input_channels: u16,
    /// Number of output channels to use.
    pub output_channels: u16,
}

impl Default for AsioDeviceConfig {
    /// 48 kHz, 256-sample buffers, two channels each way.
    fn default() -> (r: Self)
        ensures
            r.sample_rate == 48000,
            r.buffer_size == 256,
            r.input_channels == 2,
            r.output_channels == 2,
    {
        AsioDeviceConfig { sample_rate: 48000, buffer_size: 256, input_channels: 2, output_channels: 2 }
    }
}

/// An ASIO device. Without ASIO support (any platform but Windows with the
/// `asio` feature) no device can be opened, so only its name is held.
#[derive(Debug)]
pub struct AsioDevice {
    name: String,
}

impl AsioDevice {
    /// The device name.
    pub closed spec fn spec_name(&self) -> Seq<char> {
        self.name@
    }

    /// The device name.
    pub fn name(&self) -> (r: &str)
        ensures
            r@ == self.spec_name(),
    {
        self.name.as_str()
    }

    /// The device's information; fails with `NotAvailable` without ASIO.
    pub fn info(&self) -> (r: Result<AsioDeviceInfo, AsioError>)
        ensures
            r matches Err(AsioError::NotAvailable),
    {
        Err(AsioError::NotAvailable)
    }
}

} // verus!
