//! Sample-rate conversion: quality levels, and the decisions a resampler
//! makes before the floating-point work, which its callers do.

use vstd::prelude::*;
use crate::error::{Error, ErrorView};

verus! {

/// Quality level of sample-rate conversion.
#[derive(Debug, Clone, Copy, PartialEq, Eq, Structural)]
pub enum ResamplerQuality {
    /// Fast resampling with lower quality.
    Fast,
    /// Balanced quality and performance (the default).
    Normal,
    /// High quality resampling.
    High,
}

impl Default for ResamplerQuality {
    fn default() -> (r: Self)
        ensures
            r == ResamplerQuality::Normal,
    {
        ResamplerQuality::Normal
    }
}

impl ResamplerQuality {
    /// The number of sinc interpolation points: 64, 128 or 256.
    pub open spec fn spec_sinc_len(self) -> usize {
        match self {
            ResamplerQuality::Fast => 64,
            ResamplerQuality::Normal => 128,
            ResamplerQuality::High => 256,
        }
    }

    /// Returns the number of sinc interpolation points for this quality level.
    pub fn sinc_len(self) -> (r: usize)
        ensures
            r == self.spec_sinc_len(),
    {
        match self {
            ResamplerQuality::Fast => 64,
            ResamplerQuality::Normal => 128,
            ResamplerQuality::High => 256,
        }
    }

    /// Returns the oversampling factor for this quality level: twice the
    /// number of interpolation points.
    pub fn oversampling_factor(self) -> (r: usize)
        ensures
            r == 2 * self.spec_sinc_len(),
    {
        match self {
            ResamplerQuality::Fast => 128,
            ResamplerQuality::Normal => 256,
            ResamplerQuality::High => 512,
        }
    }
}

/// How a resampler is driven: by fixed input chunks when upsampling or at
/// equal rates, by fixed output chunks when downsampling.
#[derive(Debug, Clone, Copy, PartialEq, Eq, Structural)]
pub enum ResamplerKind {
    /// Fixed input chunk size.
    FixedIn,
    /// Fixed output chunk size.
    FixedOut,
}

/// How a resampler from `input_rate` to `output_rate` with `channels`
/// channels is driven; no channels at all is an invalid channel count.
pub fn resampler_plan(input_rate: u32, output_rate: u32, channels: usize) -> (r: Result<ResamplerKind, Error>)
    ensures
        channels == 0 ==> (r matches Err(e) && e@ == ErrorView::InvalidChannelCount(0)),
        channels > 0 && input_rate <= output_rate ==> r == Ok::<ResamplerKind, Error>(ResamplerKind::FixedIn),
        channels > 0 && input_rate > output_rate ==> r == Ok::<ResamplerKind, Error>(ResamplerKind::FixedOut),
{
    if channels == 0 {
        return Err(Error::InvalidChannelCount(0));
    }
    if input_rate <= output_rate {
        Ok(ResamplerKind::FixedIn)
    } else {
        Ok(ResamplerKind::FixedOut)
    }
}

/// Checks the buffers handed to a resampler of `channels` channels: both
/// must hold one list per channel, else the input's count is refused.
pub fn check_process_channels(channels: usize, input_channels: usize, output_channels: usize) -> (r: Result<(), Error>)
    ensures
        r is Ok <==> (input_channels == channels && output_channels == channels),
        r matches Err(e) ==> e@ == ErrorView::InvalidChannelCount(input_channels),
{
    if input_channels != channels || output_channels != channels {
        Err(Error::InvalidChannelCount(input_channels))
    } else {
        Ok(())
    }
}

/// Whether converting between two rates changes nothing.
pub fn is_identity(input_rate: u32, output_rate: u32) -> (r: bool)
    ensures
        r == (input_rate == output_rate),
{
    input_rate == output_rate
}

} // verus!
