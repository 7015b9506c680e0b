//! Lock-free level meters: the cells that audio callbacks update and
//! control threads read, per channel and per bank of channels.
//!
//! The cells hold `f32` bit patterns; the float arithmetic of updating and
//! reading levels happens outside the verified code.

use vstd::prelude::*;
use std::sync::atomic::{AtomicU64, Ordering};
use crate::atomic::{AtomicF32, ZERO_BITS};

verus! {

/// Lock-free meter for a single audio channel.
#[derive(Debug)]
pub struct ChannelMeter {
    /// Peak level (linear).
    peak: AtomicF32,
    /// Accumulated squared sum for RMS calculation.
    rms_sum: AtomicF32,
    /// Sample count for RMS calculation.
    sample_count: AtomicU64,
    /// Held peak (highest peak seen since the last full reset).
    held_peak: AtomicF32,
}

impl Default for ChannelMeter {
    fn default() -> (r: Self) {
        Self::new()
    }
}

impl ChannelMeter {
    /// Creates a new channel meter with every level at zero.
    pub fn new() -> (r: Self) {
        ChannelMeter {
            peak: AtomicF32::from_bits(ZERO_BITS),
            rms_sum: AtomicF32::from_bits(ZERO_BITS),
            sample_count: AtomicU64::new(0),
            held_peak: AtomicF32::from_bits(ZERO_BITS),
        }
    }

    /// Resets peak and RMS accumulation (the held peak stays).
    pub fn reset(&self) {
        self.peak.set_bits(ZERO_BITS);
        self.rms_sum.set_bits(ZERO_BITS);
        self.sample_count.store(0, Ordering::Relaxed);
    }

    /// Resets everything including the held peak.
    pub fn reset_all(&self) {
        self.reset();
        self.held_peak.set_bits(ZERO_BITS);
    }

    /// The peak cell.
    pub fn peak_cell(&self) -> (r: &AtomicF32) {
        &self.peak
    }

    /// The cell accumulating the sum of squares.
    pub fn rms_sum_cell(&self) -> (r: &AtomicF32) {
        &self.rms_sum
    }

    /// The cell counting accumulated samples.
    pub fn sample_count_cell(&self) -> (r: &AtomicU64) {
        &self.sample_count
    }

    /// The held peak cell.
    pub fn held_peak_cell(&self) -> (r: &AtomicF32) {
        &self.held_peak
    }
}

/// Collection of channel meters for multi-channel audio.
#[derive(Debug)]
pub struct MeterBank {
    channels: Vec<ChannelMeter>,
    channel_count: usize,
}

impl MeterBank {
    /// The bank's channel count equals the number of its meters.
    pub closed spec fn wf(&self) -> bool {
        self.channels@.len() == self.channel_count
    }

    /// The number of channels.
    pub closed spec fn spec_channel_count(&self) -> nat {
        self.channel_count as nat
    }

    /// The meters of the bank.
    pub closed spec fn meters(&self) -> Seq<ChannelMeter> {
        self.channels@
    }

    /// Creates a new meter bank with the specified number of channels.
    pub fn new(channel_count: usize) -> (r: Self)
        ensures
            r.wf(),
            r.spec_channel_count() == channel_count,
            r.meters().len() == channel_count,
    {
        let mut channels: Vec<ChannelMeter> = Vec::new();
        let mut i: usize = 0;
        while i < channel_count
            invariant
                i <= channel_count,
                channels@.len() == i,
            decreases channel_count - i,
        {
            channels.push(ChannelMeter::new());
            i = i + 1;
        }
        MeterBank { channels, channel_count }
    }

    /// Returns the number of channels.
    pub fn channel_count(&self) -> (r: usize)
        ensures
            r == self.spec_channel_count(),
    {
        self.channel_count
    }

    /// Returns the meter for a specific channel.
    pub fn get(&self, channel: usize) -> (r: Option<&ChannelMeter>)
        ensures
            self.wf() ==> (r is Some <==> channel < self.spec_channel_count()),
            channel < self.meters().len() ==> r == Some(&self.meters()[channel as int]),
            channel >= self.meters().len() ==> r is None,
    {
        if channel < self.channels.len() {
            Some(&self.channels[channel])
        } else {
            None
        }
    }

    /// Resets all meters (held peaks stay).
    pub fn reset(&self) {
        let n = self.channels.len();
        let mut i: usize = 0;
        while i < n
            invariant
                n == self.channels@.len(),
                i <= n,
            decreases n - i,
        {
            self.channels[i].reset();
            i = i + 1;
        }
    }

    /// Resets all meters including held peaks.
    pub fn reset_all(&self) {
        let n = self.channels.len();
        let mut i: usize = 0;
        while i < n
            invariant
                n == self.channels@.len(),
                i <= n,
            decreases n - i,
        {
            self.channels[i].reset_all();
            i = i + 1;
        }
    }
}

} // verus!
