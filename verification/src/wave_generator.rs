//! Test-signal waveforms that the audio engine can generate on an output
//! channel.

use vstd::prelude::*;

verus! {

/// The waveforms that the audio engine generates.
#[derive(Debug, Clone, Copy, PartialEq, Eq, Structural)]
pub enum WaveformType {
    /// Sine wave.
    Sine,
    /// Pink noise.
    PinkNoise,
    /// A distinct tone per channel.
    ChannelId,
    /// Frequency sweep.
    Sweep,
    /// Single-sample click.
    Click,
}

} // verus!
