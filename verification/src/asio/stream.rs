//! ASIO stream configuration and state.

use vstd::prelude::*;
use std::sync::atomic::{AtomicU8, Ordering};
use crate::asio::error::AsioError;

verus! {

/// Configuration of an ASIO stream.
#[derive(Debug, Clone, Copy)]
pub struct AsioStreamConfig {
    /// Sample rate in Hz.
    pub sample_rate: u32,
    /// Buffer size in samples.
    pub buffer_size: u32,
    /// Number of channels.
    pub channels: u16,
}

impl Default for AsioStreamConfig {
    /// 48 kHz, 256-sample buffers, stereo.
    fn default() -> (r: Self)
        ensures
            r.sample_rate == 48000,
            r.buffer_size == 256,
            r.channels == 2,
    {
        AsioStreamConfig { sample_rate: 48000, buffer_size: 256, channels: 2 }
    }
}

/// State of an ASIO stream.
#[derive(Debug, Clone, Copy, PartialEq, Eq, Structural)]
pub enum StreamState {
    /// Not running.
    Stopped,
    /// Running.
    Running,
    /// Failed.
    Error,
}

impl StreamState {
    /// The state a code decodes to: 0 stopped, 1 running, anything else error.
    pub open spec fn spec_decode(value: u8) -> Self {
        if value == 0 {
            StreamState::Stopped
        } else if value == 1 {
            StreamState::Running
        } else {
            StreamState::Error
        }
    }
}

/// An ASIO audio stream. Without ASIO support no stream can be built, and
/// starting or pausing one fails with `NotAvailable`.
#[derive(Debug)]
pub struct AsioStream {
    config: AsioStreamConfig,
    state: AtomicU8,
}

impl AsioStream {
    /// The stream's configuration.
    pub closed spec fn spec_config(&self) -> AsioStreamConfig {
        self.config
    }

    /// Starts the stream; fails with `NotAvailable` without ASIO.
    pub fn play(&self) -> (r: Result<(), AsioError>)
        ensures
            r matches Err(AsioError::NotAvailable),
    {
        Err(AsioError::NotAvailable)
    }

    /// Pauses the stream; fails with `NotAvailable` without ASIO.
    pub fn pause(&self) -> (r: Result<(), AsioError>)
        ensures
            r matches Err(AsioError::NotAvailable),
    {
        Err(AsioError::NotAvailable)
    }

    /// The stream's state.
    pub fn state(&self) -> (r: StreamState)
        ensures
            exists|v: u8| r == #[trigger] StreamState::spec_decode(v),
    {
        let v = self.state.load(Ordering::Acquire);
        let r = match v {
            0 => StreamState::Stopped,
            1 => StreamState::Running,
            _ => StreamState::Error,
        };
        assert(r == StreamState::spec_decode(v));
        r
    }

    /// The stream's configuration.
    pub fn config(&self) -> (r: &AsioStreamConfig)
        ensures
            *r == self.spec_config(),
    {
        &self.config
    }

    /// Whether the stream is running.
    pub fn is_running(&self) -> (r: bool) {
        self.state() == StreamState::Running
    }
}

/// Builder for stream configurations.
#[derive(Debug, Clone, Copy)]
pub struct AsioStreamBuilder {
    sample_rate: u32,
    buffer_size: u32,
    channels: u16,
}

impl AsioStreamBuilder {
    /// The configuration the builder would build now.
    pub closed spec fn spec_config(self) -> AsioStreamConfig {
        AsioStreamConfig { sample_rate: self.sample_rate, buffer_size: self.buffer_size, channels: self.channels }
    }

    /// A builder for 48 kHz, 256-sample, stereo streams.
    pub fn new() -> (r: Self)
        ensures
            r.spec_config() == (AsioStreamConfig { sample_rate: 48000, buffer_size: 256, channels: 2 }),
    {
        AsioStreamBuilder { sample_rate: 48000, buffer_size: 256, channels: 2 }
    }

    /// Sets the sample rate.
    pub fn sample_rate(self, rate: u32) -> (r: Self)
        ensures
            r.spec_config() == (AsioStreamConfig { sample_rate: rate, ..self.spec_config() }),
    {
        AsioStreamBuilder { sample_rate: rate, ..self }
    }

    /// Sets the buffer size.
    pub fn buffer_size(self, size: u32) -> (r: Self)
        ensures
            r.spec_config() == (AsioStreamConfig { buffer_size: size, ..self.spec_config() }),
    {
        AsioStreamBuilder { buffer_size: size, ..self }
    }

    /// Sets the channel count.
    pub fn channels(self, count: u16) -> (r: Self)
        ensures
            r.spec_config() == (AsioStreamConfig { channels: count, ..self.spec_config() }),
    {
        AsioStreamBuilder { channels: count, ..self }
    }

    /// Builds the configuration.
    pub fn build(self) -> (r: AsioStreamConfig)
        ensures
            r == self.spec_config(),
    {
        AsioStreamConfig { sample_rate: self.sample_rate, buffer_size: self.buffer_size, channels: self.channels }
    }
}

impl Default for AsioStreamBuilder {
    fn default() -> (r: Self)
        ensures
            r.spec_config() == (AsioStreamConfig { sample_rate: 48000, buffer_size: 256, channels: 2 }),
    {
        Self::new()
    }
}

} // verus!
