//! Configuration, state and statistics of running audio streams.

use vstd::prelude::*;
use std::sync::Arc;
use std::sync::atomic::{AtomicBool, AtomicU64, Ordering};

verus! {

/// Configuration for an active audio stream.
#[derive(Debug, Clone, Copy)]
pub struct StreamConfig {
    /// Sample rate in Hz.
    pub sample_rate: u32,
    /// Buffer size in samples per channel.
    pub buffer_size: u32,
    /// Number of channels.
    pub channels: u16,
}

impl Default for StreamConfig {
    /// 48 kHz, 256-sample buffers, stereo.
    fn default() -> (r: Self)
        ensures
            r.sample_rate == 48000,
            r.buffer_size == 256,
            r.channels == 2,
    {
        StreamConfig { sample_rate: 48000, buffer_size: 256, channels: 2 }
    }
}

/// State of an active stream.
#[derive(Debug, Clone, Copy, PartialEq, Eq, Structural)]
pub enum StreamState {
    /// Stream is created but not started.
    Stopped,
    /// Stream is actively processing audio.
    Running,
    /// Stream encountered an error.
    Error,
}

impl StreamState {
    /// The state's code.
    pub open spec fn spec_code(self) -> u8 {
        match self {
            StreamState::Stopped => 0,
            StreamState::Running => 1,
            StreamState::Error => 2,
        }
    }

    /// The state a code decodes to: 0 stopped, 1 running, anything else error.
    pub open spec fn spec_decode(value: u8) -> Self {
        if value == 0 {
            StreamState::Stopped
        } else if value == 1 {
            StreamState::Running
        } else {
            StreamState::Error
        }
    }

    /// Converts from u8: 0 stopped, 1 running, anything else error.
    pub fn from_u8(value: u8) -> (r: Self)
        ensures
            r == Self::spec_decode(value),
    {
        match value {
            0 => StreamState::Stopped,
            1 => StreamState::Running,
            _ => StreamState::Error,
        }
    }

    /// The state's code.
    pub fn to_u8(self) -> (r: u8)
        ensures
            r == self.spec_code(),
    {
        match self {
            StreamState::Stopped => 0,
            StreamState::Running => 1,
            StreamState::Error => 2,
        }
    }
}

/// Every stream state survives the round trip through its code.
pub proof fn lemma_stream_state_code_roundtrip(s: StreamState)
    ensures
        StreamState::spec_decode(s.spec_code()) == s,
{
}

/// Statistics for an active stream: counters that the audio callback
/// increments and other threads read.
///
/// Other threads may update the counters at any time, so what a read
/// returns is not stated.
#[derive(Debug)]
pub struct StreamStats {
    /// Number of callbacks processed.
    pub callback_count: AtomicU64,
    /// Number of buffer underruns (output couldn't get enough samples).
    pub underrun_count: AtomicU64,
    /// Number of buffer overruns (input couldn't write samples fast enough).
    pub overrun_count: AtomicU64,
}

impl Default for StreamStats {
    fn default() -> (r: Self) {
        Self::new()
    }
}

impl StreamStats {
    /// Creates new stream statistics, every counter at zero.
    pub fn new() -> (r: Self) {
        StreamStats {
            callback_count: AtomicU64::new(0),
            underrun_count: AtomicU64::new(0),
            overrun_count: AtomicU64::new(0),
        }
    }

    /// Increments the callback count.
    pub fn record_callback(&self) {
        self.callback_count.fetch_add(1, Ordering::Relaxed);
    }

    /// Increments the underrun count.
    pub fn record_underrun(&self) {
        self.underrun_count.fetch_add(1, Ordering::Relaxed);
    }

    /// Increments the overrun count.
    pub fn record_overrun(&self) {
        self.overrun_count.fetch_add(1, Ordering::Relaxed);
    }

    /// Gets the callback count.
    pub fn callbacks(&self) -> (r: u64) {
        self.callback_count.load(Ordering::Relaxed)
    }

    /// Gets the underrun count.
    pub fn underruns(&self) -> (r: u64) {
        self.underrun_count.load(Ordering::Relaxed)
    }

    /// Gets the overrun count.
    pub fn overruns(&self) -> (r: u64) {
        self.overrun_count.load(Ordering::Relaxed)
    }
}

impl Clone for StreamStats {
    /// Independent counters holding the current counts.
    fn clone(&self) -> (r: Self) {
        StreamStats {
            callback_count: AtomicU64::new(self.callbacks()),
            underrun_count: AtomicU64::new(self.underruns()),
            overrun_count: AtomicU64::new(self.overruns()),
        }
    }
}

/// An active input stream that captures audio from a device: its
/// identifiers, configuration, the ring buffer of each channel, the context
/// its audio callback runs with, a running flag and statistics.
///
/// The running flag may be stored by other threads at any time, so what a
/// read of it returns is not stated.
#[derive(Debug)]
pub struct ActiveInputStream<C> {
    id: String,
    device_id: String,
    config: StreamConfig,
    buffer_indices: Vec<usize>,
    context: Arc<C>,
    running: AtomicBool,
    stats: StreamStats,
}

impl<C> ActiveInputStream<C> {
    /// The stream's identifier.
    pub closed spec fn id_spec(&self) -> Seq<char> {
        self.id@
    }

    /// The device captured from.
    pub closed spec fn device_id_spec(&self) -> Seq<char> {
        self.device_id@
    }

    /// The stream's configuration.
    pub closed spec fn config_spec(&self) -> StreamConfig {
        self.config
    }

    /// The ring buffer of each channel, by pool index.
    pub closed spec fn buffer_indices_spec(&self) -> Seq<usize> {
        self.buffer_indices@
    }

    /// The callback context.
    pub closed spec fn context_spec(&self) -> Arc<C> {
        self.context
    }

    /// Creates a stopped stream's record with zeroed statistics; the audio
    /// stream itself is made by the caller.
    pub fn new(id: &str, device_id: &str, config: StreamConfig, buffer_indices: Vec<usize>, context: Arc<C>) -> (r: Self)
        ensures
            r.id_spec() == id@,
            r.device_id_spec() == device_id@,
            r.config_spec() == config,
            r.buffer_indices_spec() == buffer_indices@,
            r.context_spec() == context,
    {
        ActiveInputStream {
            id: String::from_str(id),
            device_id: String::from_str(device_id),
            config,
            buffer_indices,
            context,
            running: AtomicBool::new(false),
            stats: StreamStats::new(),
        }
    }

    /// The stream's identifier.
    pub fn id(&self) -> (r: &str)
        ensures
            r@ == self.id_spec(),
    {
        self.id.as_str()
    }

    /// The device captured from.
    pub fn device_id(&self) -> (r: &str)
        ensures
            r@ == self.device_id_spec(),
    {
        self.device_id.as_str()
    }

    /// The stream's configuration.
    pub fn config(&self) -> (r: &StreamConfig)
        ensures
            *r == self.config_spec(),
    {
        &self.config
    }

    /// The ring buffer of each channel, by pool index.
    pub fn buffer_indices(&self) -> (r: &[usize])
        ensures
            r@ == self.buffer_indices_spec(),
    {
        self.buffer_indices.as_slice()
    }

    /// The callback context.
    pub fn context(&self) -> (r: &Arc<C>)
        ensures
            *r == self.context_spec(),
    {
        &self.context
    }

    /// Whether the stream is running.
    pub fn is_running(&self) -> (r: bool) {
        self.running.load(Ordering::Acquire)
    }

    /// Marks the stream as running or not.
    pub fn set_running(&self, running: bool) {
        self.running.store(running, Ordering::Release);
    }

    /// The stream's statistics.
    pub fn stats(&self) -> (r: &StreamStats) {
        &self.stats
    }

    /// The number of channels: one per ring buffer.
    pub fn channel_count(&self) -> (r: usize)
        ensures
            r == self.buffer_indices_spec().len(),
    {
        self.buffer_indices.len()
    }
}

/// An active output stream that plays audio to a device: its identifiers,
/// configuration, the routing destinations it plays, the context its audio
/// callback runs with, a running flag and statistics.
///
/// The running flag may be stored by other threads at any time, so what a
/// read of it returns is not stated.
#[derive(Debug)]
pub struct ActiveOutputStream<C> {
    id: String,
    device_id: String,
    config: StreamConfig,
    dest_indices: Vec<usize>,
    context: Arc<C>,
    running: AtomicBool,
    stats: StreamStats,
}

impl<C> ActiveOutputStream<C> {
    /// The stream's identifier.
    pub closed spec fn id_spec(&self) -> Seq<char> {
        self.id@
    }

    /// The device played to.
    pub closed spec fn device_id_spec(&self) -> Seq<char> {
        self.device_id@
    }

    /// The stream's configuration.
    pub closed spec fn config_spec(&self) -> StreamConfig {
        self.config
    }

    /// The destinations played, by index in the routing snapshot.
    pub closed spec fn dest_indices_spec(&self) -> Seq<usize> {
        self.dest_indices@
    }

    /// The callback context.
    pub closed spec fn context_spec(&self) -> Arc<C> {
        self.context
    }

    /// Creates a stopped stream's record with zeroed statistics; the audio
    /// stream itself is made by the caller.
    pub fn new(id: &str, device_id: &str, config: StreamConfig, dest_indices: Vec<usize>, context: Arc<C>) -> (r: Self)
        ensures
            r.id_spec() == id@,
            r.device_id_spec() == device_id@,
            r.config_spec() == config,
            r.dest_indices_spec() == dest_indices@,
            r.context_spec() == context,
    {
        ActiveOutputStream {
            id: String::from_str(id),
            device_id: String::from_str(device_id),
            config,
            dest_indices,
            context,
            running: AtomicBool::new(false),
            stats: StreamStats::new(),
        }
    }

    /// The stream's identifier.
    pub fn id(&self) -> (r: &str)
        ensures
            r@ == self.id_spec(),
    {
        self.id.as_str()
    }

    /// The device played to.
    pub fn device_id(&self) -> (r: &str)
        ensures
            r@ == self.device_id_spec(),
    {
        self.device_id.as_str()
    }

    /// The stream's configuration.
    pub fn config(&self) -> (r: &StreamConfig)
        ensures
            *r == self.config_spec(),
    {
        &self.config
    }

    /// The destinations played, by index in the routing snapshot.
    pub fn dest_indices(&self) -> (r: &[usize])
        ensures
            r@ == self.dest_indices_spec(),
    {
        self.dest_indices.as_slice()
    }

    /// The callback context.
    pub fn context(&self) -> (r: &Arc<C>)
        ensures
            *r == self.context_spec(),
    {
        &self.context
    }

    /// Whether the stream is running.
    pub fn is_running(&self) -> (r: bool) {
        self.running.load(Ordering::Acquire)
    }

    /// Marks the stream as running or not.
    pub fn set_running(&self, running: bool) {
        self.running.store(running, Ordering::Release);
    }

    /// The stream's statistics.
    pub fn stats(&self) -> (r: &StreamStats) {
        &self.stats
    }

    /// The number of output channels: one per destination.
    pub fn channel_count(&self) -> (r: usize)
        ensures
            r == self.dest_indices_spec().len(),
    {
        self.dest_indices.len()
    }
}

} // verus!
