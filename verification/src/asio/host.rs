//! The ASIO host. Without ASIO support (any platform but Windows with the
//! `asio` feature) no host can be created.

use vstd::prelude::*;
use crate::asio::device::{AsioDevice, AsioDeviceInfo};
use crate::asio::error::AsioError;

verus! {

/// The ASIO audio subsystem.
#[derive(Debug)]
pub struct AsioHost {
    _private: (),
}

impl AsioHost {
    /// Initializes the host; fails with `NotAvailable` without ASIO.
    pub fn new() -> (r: Result<Self, AsioError>)
        ensures
            r matches Err(AsioError::NotAvailable),
    {
        Err(AsioError::NotAvailable)
    }

    /// Information about every device; fails with `NotAvailable` without
    /// ASIO.
    pub fn device_infos(&self) -> (r: Result<Vec<AsioDeviceInfo>, AsioError>)
        ensures
            r matches Err(AsioError::NotAvailable),
    {
        Err(AsioError::NotAvailable)
    }

    /// A device by name; fails with `NotAvailable` without ASIO.
    pub fn device_by_name(&self, name: &str) -> (r: Result<AsioDevice, AsioError>)
        ensures
            r matches Err(AsioError::NotAvailable),
    {
        Err(AsioError::NotAvailable)
    }

    /// The default input device; fails with `NotAvailable` without ASIO.
    pub fn default_input_device(&self) -> (r: Result<Option<AsioDevice>, AsioError>)
        ensures
            r matches Err(AsioError::NotAvailable),
    {
        Err(AsioError::NotAvailable)
    }

    /// The default output device; fails with `NotAvailable` without ASIO.
    pub fn default_output_device(&self) -> (r: Result<Option<AsioDevice>, AsioError>)
        ensures
            r matches Err(AsioError::NotAvailable),
    {
        Err(AsioError::NotAvailable)
    }

    /// The number of devices; fails with `NotAvailable` without ASIO.
    pub fn device_count(&self) -> (r: Result<usize, AsioError>)
        ensures
            r matches Err(AsioError::NotAvailable),
    {
        Err(AsioError::NotAvailable)
    }
}

/// One configuration range a device reports: its channel count, the
/// sample rates it spans, and its buffer size range where known.
#[derive(Debug, Clone, Copy)]
pub struct ConfigRange {
    /// Number of channels.
    pub channels: u16,
    /// Lowest sample rate.
    pub min_sample_rate: u32,
    /// Highest sample rate.
    pub max_sample_rate: u32,
    /// Smallest and largest buffer size, where the device says.
    pub buffer_size: Option<(u32, u32)>,
}

/// The sample rates looked for in a device's ranges.
pub const COMMON_SAMPLE_RATES: [u32; 6] = [44100, 48000, 88200, 96000, 176400, 192000];

/// Whether a rate is one of [`COMMON_SAMPLE_RATES`].
pub open spec fn is_common_rate(r: u32) -> bool {
    r == 44100 || r == 48000 || r == 88200 || r == 96000 || r == 176400 || r == 192000
}

/// The most channels of any range; 0 with none.
pub open spec fn max_channels(cs: Seq<ConfigRange>) -> u16
    decreases cs.len(),
{
    if cs.len() == 0 {
        0
    } else if cs.last().channels > max_channels(cs.drop_last()) {
        cs.last().channels
    } else {
        max_channels(cs.drop_last())
    }
}

/// Whether some range spans a rate.
pub open spec fn spans_rate(cs: Seq<ConfigRange>, r: u32) -> bool {
    exists|i: int| 0 <= i < cs.len() && (#[trigger] cs[i]).min_sample_rate <= r && r <= cs[i].max_sample_rate
}

/// The buffer size range of the first range, 64 to 4096 where there is no
/// range or it does not say.
pub open spec fn buffer_range(cs: Seq<ConfigRange>) -> (u32, u32) {
    if cs.len() > 0 && cs[0].buffer_size is Some {
        cs[0].buffer_size->0
    } else {
        (64, 4096)
    }
}

fn max_channels_of(cs: &Vec<ConfigRange>) -> (r: u16)
    ensures
        r == max_channels(cs@),
{
    let mut m: u16 = 0;
    let mut i: usize = 0;
    while i < cs.len()
        invariant
            i <= cs@.len(),
            m == max_channels(cs@.take(i as int)),
        decreases cs.len() - i,
    {
        assert(cs@.take(i + 1).drop_last() =~= cs@.take(i as int));
        if cs[i].channels > m {
            m = cs[i].channels;
        }
        i = i + 1;
    }
    assert(cs@.take(cs@.len() as int) =~= cs@);
    m
}

/// What a device's input and output configuration ranges (none where it
/// could not list them) say of it: the most channels each way, the common
/// rates that some output range spans, each once, and the buffer size range
/// of the first output range.
pub fn device_info_from_ranges(name: String, input: Option<Vec<ConfigRange>>, output: Option<Vec<ConfigRange>>) -> (r:
    AsioDeviceInfo)
    ensures
        r.name@ == name@,
        r.input_channels == match input {
            Some(cs) => max_channels(cs@),
            None => 0,
        },
        r.output_channels == match output {
            Some(cs) => max_channels(cs@),
            None => 0,
        },
        r.sample_rates@.no_duplicates(),
        forall|rate: u32| #[trigger] r.sample_rates@.contains(rate) <==> is_common_rate(rate) && match output {
            Some(cs) => spans_rate(cs@, rate),
            None => false,
        },
        (r.buffer_size_min, r.buffer_size_max) == match output {
            Some(cs) => buffer_range(cs@),
            None => (64u32, 4096u32),
        },
{
    let input_channels = match &input {
        Some(cs) => max_channels_of(cs),
        None => 0,
    };
    let mut rates: Vec<u32> = Vec::new();
    let mut buffer: (u32, u32) = (64, 4096);
    let output_channels = match &output {
        None => 0,
        Some(cs) => {
            let mut k: usize = 0;
            while k < 6
                invariant
                    k <= 6,
                    rates@.no_duplicates(),
                    forall|rate: u32| #[trigger] rates@.contains(rate) <==> (exists|j: int|
                        0 <= j < k && COMMON_SAMPLE_RATES@[j] == rate) && spans_rate(cs@, rate),
                decreases 6 - k,
            {
                let rate = COMMON_SAMPLE_RATES[k];
                let mut spanned = false;
                let mut i: usize = 0;
                while i < cs.len()
                    invariant
                        i <= cs@.len(),
                        spanned <==> exists|j: int|
                            0 <= j < i && (#[trigger] cs@[j]).min_sample_rate <= rate && rate <= cs@[j].max_sample_rate,
                    decreases cs.len() - i,
                {
                    if cs[i].min_sample_rate <= rate && rate <= cs[i].max_sample_rate {
                        spanned = true;
                    }
                    i = i + 1;
                }
                let ghost before = rates@;
                if spanned {
                    proof {
                        assert(!before.contains(rate)) by {
                            if before.contains(rate) {
                                let j = choose|j: int| 0 <= j < k && COMMON_SAMPLE_RATES@[j] == rate;
                                assert(COMMON_SAMPLE_RATES@[j] != COMMON_SAMPLE_RATES@[k as int]);
                            }
                        }
                    }
                    rates.push(rate);
                }
                proof {
                    assert forall|x: u32| #[trigger] rates@.contains(x) <==> (exists|j: int|
                        0 <= j < k + 1 && COMMON_SAMPLE_RATES@[j] == x) && spans_rate(cs@, x) by {
                        if rates@.contains(x) && !before.contains(x) {
                            assert(x == rate);
                            assert(COMMON_SAMPLE_RATES@[k as int] == x);
                        }
                        if before.contains(x) {
                            let j = choose|j: int| 0 <= j < before.len() && before[j] == x;
                            assert(rates@[j] == x);
                        }
                        if (exists|j: int| 0 <= j < k + 1 && COMMON_SAMPLE_RATES@[j] == x) && spans_rate(cs@, x) {
                            if !(exists|j: int| 0 <= j < k && COMMON_SAMPLE_RATES@[j] == x) {
                                assert(x == rate);
                                assert(rates@[rates@.len() - 1] == x);
                            }
                        }
                    }
                }
                k = k + 1;
            }
            proof {
                assert forall|x: u32| (exists|j: int| 0 <= j < 6 && COMMON_SAMPLE_RATES@[j] == x) <==> is_common_rate(x) by {
                    if is_common_rate(x) {
                        if x == 44100 { assert(COMMON_SAMPLE_RATES@[0] == x); }
                        else if x == 48000 { assert(COMMON_SAMPLE_RATES@[1] == x); }
                        else if x == 88200 { assert(COMMON_SAMPLE_RATES@[2] == x); }
                        else if x == 96000 { assert(COMMON_SAMPLE_RATES@[3] == x); }
                        else if x == 176400 { assert(COMMON_SAMPLE_RATES@[4] == x); }
                        else { assert(COMMON_SAMPLE_RATES@[5] == x); }
                    }
                }
            }
            if cs.len() > 0 {
                if let Some(b) = cs[0].buffer_size {
                    buffer = b;
                }
            }
            max_channels_of(cs)
        },
    };
    AsioDeviceInfo {
        name,
        input_channels,
        output_channels,
        sample_rates: rates,
        buffer_size_min: buffer.0,
        buffer_size_max: buffer.1,
    }
}

} // verus!
