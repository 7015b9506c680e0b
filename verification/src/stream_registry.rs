//! The registry of active streams, input and output, each kept by the
//! device it runs on, and statistics summed over them.

use vstd::prelude::*;
use std::sync::Arc;
use crate::active_stream::{ActiveInputStream, ActiveOutputStream};
use crate::api_models::{StreamDirection, StreamInfo};
use crate::keyed::{
    has_key, keyed_map, keys_distinct, lemma_keyed_at, lemma_keyed_empty, lemma_keyed_len, lemma_keyed_push,
    lemma_keyed_remove, lemma_keyed_update,
};
use crate::routing_table::share;
use crate::text::str_equal;

verus! {

/// Aggregate statistics across several streams.
#[derive(Debug, Clone, Copy)]
pub struct AggregateStats {
    /// Number of streams included in these stats.
    pub stream_count: usize,
    /// Total callbacks across all streams.
    pub total_callbacks: u64,
    /// Total underruns across all streams.
    pub total_underruns: u64,
    /// Total overruns across all streams.
    pub total_overruns: u64,
}

impl Default for AggregateStats {
    /// Statistics over no streams.
    fn default() -> (r: Self)
        ensures
            r.stream_count == 0,
            r.total_callbacks == 0,
            r.total_underruns == 0,
            r.total_overruns == 0,
    {
        AggregateStats { stream_count: 0, total_callbacks: 0, total_underruns: 0, total_overruns: 0 }
    }
}

/// The key of an input stream: its device.
pub open spec fn input_key<C>() -> spec_fn(Arc<ActiveInputStream<C>>) -> Seq<char> {
    |s: Arc<ActiveInputStream<C>>| s.device_id_spec()
}

/// The key of an output stream: its device.
pub open spec fn output_key<C>() -> spec_fn(Arc<ActiveOutputStream<C>>) -> Seq<char> {
    |s: Arc<ActiveOutputStream<C>>| s.device_id_spec()
}

/// Registry of the active audio streams: at most one input stream and one
/// output stream per device. `CI` and `CO` are the contexts the audio
/// callbacks of input and output streams run with.
pub struct StreamRegistry<CI, CO> {
    inputs: Vec<Arc<ActiveInputStream<CI>>>,
    outputs: Vec<Arc<ActiveOutputStream<CO>>>,
}

impl<CI, CO> StreamRegistry<CI, CO> {
    /// The input streams by device.
    pub closed spec fn input_map(&self) -> Map<Seq<char>, Arc<ActiveInputStream<CI>>> {
        keyed_map(self.inputs@, input_key())
    }

    /// The output streams by device.
    pub closed spec fn output_map(&self) -> Map<Seq<char>, Arc<ActiveOutputStream<CO>>> {
        keyed_map(self.outputs@, output_key())
    }

    /// At most one stream per device and direction, and a stream count that
    /// fits a `usize`.
    pub closed spec fn wf(&self) -> bool {
        &&& keys_distinct(self.inputs@, input_key())
        &&& keys_distinct(self.outputs@, output_key())
        &&& self.inputs@.len() + self.outputs@.len() <= usize::MAX
    }

    /// The number of streams, input and output.
    pub open spec fn stream_total(&self) -> nat {
        self.input_map().dom().len() + self.output_map().dom().len()
    }

    /// The maps have as many keys as there are streams.
    proof fn lemma_counts(&self)
        requires
            self.wf(),
        ensures
            self.input_map().dom().finite(),
            self.output_map().dom().finite(),
            self.input_map().dom().len() == self.inputs@.len(),
            self.output_map().dom().len() == self.outputs@.len(),
    {
        lemma_keyed_len(self.inputs@, input_key());
        lemma_keyed_len(self.outputs@, output_key());
    }

    /// Creates an empty registry.
    pub fn new() -> (r: Self)
        ensures
            r.wf(),
            r.input_map() == Map::<Seq<char>, Arc<ActiveInputStream<CI>>>::empty(),
            r.output_map() == Map::<Seq<char>, Arc<ActiveOutputStream<CO>>>::empty(),
    {
        let r = StreamRegistry { inputs: Vec::new(), outputs: Vec::new() };
        proof {
            lemma_keyed_empty(input_key::<CI>());
            lemma_keyed_empty(output_key::<CO>());
        }
        r
    }

    fn find_input(&self, device_id: &str) -> (r: Option<usize>)
        ensures
            r is None ==> !has_key(self.inputs@, input_key(), device_id@),
            r matches Some(i) ==> i < self.inputs@.len() && self.inputs@[i as int].device_id_spec() == device_id@,
    {
        let mut i: usize = 0;
        while i < self.inputs.len()
            invariant
                i <= self.inputs@.len(),
                forall|j: int| 0 <= j < i ==> (#[trigger] self.inputs@[j]).device_id_spec() != device_id@,
            decreases self.inputs.len() - i,
        {
            if str_equal(self.inputs[i].device_id(), device_id) {
                return Some(i);
            }
            i = i + 1;
        }
        proof {
            if has_key(self.inputs@, input_key(), device_id@) {
                let j = choose|j: int| 0 <= j < self.inputs@.len() && #[trigger] input_key()(self.inputs@[j]) == device_id@;
                assert(self.inputs@[j].device_id_spec() == device_id@);
            }
        }
        None
    }

    fn find_output(&self, device_id: &str) -> (r: Option<usize>)
        ensures
            r is None ==> !has_key(self.outputs@, output_key(), device_id@),
            r matches Some(i) ==> i < self.outputs@.len() && self.outputs@[i as int].device_id_spec() == device_id@,
    {
        let mut i: usize = 0;
        while i < self.outputs.len()
            invariant
                i <= self.outputs@.len(),
                forall|j: int| 0 <= j < i ==> (#[trigger] self.outputs@[j]).device_id_spec() != device_id@,
            decreases self.outputs.len() - i,
        {
            if str_equal(self.outputs[i].device_id(), device_id) {
                return Some(i);
            }
            i = i + 1;
        }
        proof {
            if has_key(self.outputs@, output_key(), device_id@) {
                let j = choose|j: int| 0 <= j < self.outputs@.len() && #[trigger] output_key()(self.outputs@[j]) == device_id@;
                assert(self.outputs@[j].device_id_spec() == device_id@);
            }
        }
        None
    }

    /// Registers an input stream under its device, replacing the one there
    /// was.
    pub fn register_input(&mut self, stream: Arc<ActiveInputStream<CI>>)
        requires
            old(self).wf(),
            old(self).stream_total() < usize::MAX,
        ensures
            final(self).wf(),
            final(self).input_map() == old(self).input_map().insert(stream.device_id_spec(), stream),
            final(self).output_map() == old(self).output_map(),
    {
        proof {
            self.lemma_counts();
        }
        let ghost s0 = self.inputs@;
        let ghost k = stream.device_id_spec();
        match self.find_input(stream.device_id()) {
            Some(i) => {
                self.inputs.set(i, stream);
                proof {
                    lemma_keyed_update(s0, input_key(), i as int, stream);
                }
            },
            None => {
                self.inputs.push(stream);
                proof {
                    lemma_keyed_push(s0, input_key(), stream);
                }
            },
        }
    }

    /// Unregisters the input stream of a device; returns it, if there was
    /// one.
    pub fn unregister_input(&mut self, device_id: &str) -> (r: Option<Arc<ActiveInputStream<CI>>>)
        requires
            old(self).wf(),
        ensures
            final(self).wf(),
            r == (if old(self).input_map().contains_key(device_id@) {
                Some(old(self).input_map()[device_id@])
            } else {
                None
            }),
            final(self).input_map() == old(self).input_map().remove(device_id@),
            final(self).output_map() == old(self).output_map(),
    {
        let ghost s0 = self.inputs@;
        match self.find_input(device_id) {
            Some(i) => {
                proof {
                    lemma_keyed_at(s0, input_key(), i as int);
                    lemma_keyed_remove(s0, input_key(), i as int);
                }
                let s = self.inputs.remove(i);
                Some(s)
            },
            None => {
                proof {
                    assert(self.input_map().remove(device_id@) =~= self.input_map());
                }
                None
            },
        }
    }

    /// The input stream of a device, if there is one.
    pub fn get_input(&self, device_id: &str) -> (r: Option<Arc<ActiveInputStream<CI>>>)
        requires
            self.wf(),
        ensures
            r == (if self.input_map().contains_key(device_id@) {
                Some(self.input_map()[device_id@])
            } else {
                None
            }),
    {
        match self.find_input(device_id) {
            Some(i) => {
                proof {
                    lemma_keyed_at(self.inputs@, input_key(), i as int);
                }
                Some(share(&self.inputs[i]))
            },
            None => None,
        }
    }

    /// Whether a device has an input stream.
    pub fn has_input(&self, device_id: &str) -> (r: bool)
        requires
            self.wf(),
        ensures
            r == self.input_map().contains_key(device_id@),
    {
        let found = self.find_input(device_id);
        proof {
            if let Some(i) = found {
                lemma_keyed_at(self.inputs@, input_key(), i as int);
            }
        }
        found.is_some()
    }

    /// The number of input streams.
    pub fn input_count(&self) -> (r: usize)
        requires
            self.wf(),
        ensures
            r == self.input_map().dom().len(),
    {
        proof {
            self.lemma_counts();
        }
        self.inputs.len()
    }

    /// The devices with an input stream, each once.
    pub fn input_device_ids(&self) -> (r: Vec<String>)
        requires
            self.wf(),
        ensures
            r@.len() == self.input_map().dom().len(),
            forall|k: int| 0 <= k < r@.len() ==> self.input_map().contains_key(#[trigger] r@[k]@),
            forall|d: Seq<char>| #[trigger]
                self.input_map().contains_key(d) ==> exists|k: int| 0 <= k < r@.len() && r@[k]@ == d,
    {
        proof {
            self.lemma_counts();
        }
        let mut out: Vec<String> = Vec::new();
        let mut i: usize = 0;
        while i < self.inputs.len()
            invariant
                self.wf(),
                i <= self.inputs@.len(),
                out@.len() == i,
                forall|k: int| 0 <= k < i ==> (#[trigger] out@[k])@ == self.inputs@[k].device_id_spec(),
            decreases self.inputs.len() - i,
        {
            out.push(String::from_str(self.inputs[i].device_id()));
            i = i + 1;
        }
        proof {
            assert forall|k: int| 0 <= k < out@.len() implies self.input_map().contains_key(#[trigger] out@[k]@) by {
                lemma_keyed_at(self.inputs@, input_key(), k);
            }
            assert forall|d: Seq<char>| #[trigger]
                self.input_map().contains_key(d) implies exists|k: int| 0 <= k < out@.len() && out@[k]@ == d by {
                let j = choose|j: int| 0 <= j < self.inputs@.len() && #[trigger] input_key()(self.inputs@[j]) == d;
                assert(out@[j]@ == d);
            }
        }
        out
    }

    /// The input streams, each once, in the order they were registered.
    pub fn input_streams(&self) -> (r: Vec<Arc<ActiveInputStream<CI>>>)
        requires
            self.wf(),
        ensures
            r@.len() == self.input_map().dom().len(),
            forall|k: int| 0 <= k < r@.len() ==> self.input_map().contains_key((#[trigger] r@[k]).device_id_spec())
                && self.input_map()[r@[k].device_id_spec()] == r@[k],
            forall|d: Seq<char>| #[trigger]
                self.input_map().contains_key(d) ==> exists|k: int| 0 <= k < r@.len() && r@[k].device_id_spec() == d,
    {
        proof {
            self.lemma_counts();
        }
        let mut out: Vec<Arc<ActiveInputStream<CI>>> = Vec::new();
        let mut i: usize = 0;
        while i < self.inputs.len()
            invariant
                self.wf(),
                i <= self.inputs@.len(),
                out@.len() == i,
                forall|k: int| 0 <= k < i ==> #[trigger] out@[k] == self.inputs@[k],
            decreases self.inputs.len() - i,
        {
            out.push(share(&self.inputs[i]));
            i = i + 1;
        }
        proof {
            assert forall|k: int| 0 <= k < out@.len() implies self.input_map().contains_key((#[trigger] out@[k]).device_id_spec())
                && self.input_map()[out@[k].device_id_spec()] == out@[k] by {
                lemma_keyed_at(self.inputs@, input_key(), k);
            }
            assert forall|d: Seq<char>| #[trigger]
                self.input_map().contains_key(d) implies exists|k: int| 0 <= k < out@.len() && out@[k].device_id_spec() == d by {
                let j = choose|j: int| 0 <= j < self.inputs@.len() && #[trigger] input_key()(self.inputs@[j]) == d;
                assert(out@[j].device_id_spec() == d);
            }
        }
        out
    }

    /// Registers an output stream under its device, replacing the one there
    /// was.
    pub fn register_output(&mut self, stream: Arc<ActiveOutputStream<CO>>)
        requires
            old(self).wf(),
            old(self).stream_total() < usize::MAX,
        ensures
            final(self).wf(),
            final(self).output_map() == old(self).output_map().insert(stream.device_id_spec(), stream),
            final(self).input_map() == old(self).input_map(),
    {
        proof {
            self.lemma_counts();
        }
        let ghost s0 = self.outputs@;
        let ghost k = stream.device_id_spec();
        match self.find_output(stream.device_id()) {
            Some(i) => {
                self.outputs.set(i, stream);
                proof {
                    lemma_keyed_update(s0, output_key(), i as int, stream);
                }
            },
            None => {
                self.outputs.push(stream);
                proof {
                    lemma_keyed_push(s0, output_key(), stream);
                }
            },
        }
    }

    /// Unregisters the output stream of a device; returns it, if there was
    /// one.
    pub fn unregister_output(&mut self, device_id: &str) -> (r: Option<Arc<ActiveOutputStream<CO>>>)
        requires
            old(self).wf(),
        ensures
            final(self).wf(),
            r == (if old(self).output_map().contains_key(device_id@) {
                Some(old(self).output_map()[device_id@])
            } else {
                None
            }),
            final(self).output_map() == old(self).output_map().remove(device_id@),
            final(self).input_map() == old(self).input_map(),
    {
        let ghost s0 = self.outputs@;
        match self.find_output(device_id) {
            Some(i) => {
                proof {
                    lemma_keyed_at(s0, output_key(), i as int);
                    lemma_keyed_remove(s0, output_key(), i as int);
                }
                let s = self.outputs.remove(i);
                Some(s)
            },
            None => {
                proof {
                    assert(self.output_map().remove(device_id@) =~= self.output_map());
                }
                None
            },
        }
    }

    /// The output stream of a device, if there is one.
    pub fn get_output(&self, device_id: &str) -> (r: Option<Arc<ActiveOutputStream<CO>>>)
        requires
            self.wf(),
        ensures
            r == (if self.output_map().contains_key(device_id@) {
                Some(self.output_map()[device_id@])
            } else {
                None
            }),
    {
        match self.find_output(device_id) {
            Some(i) => {
                proof {
                    lemma_keyed_at(self.outputs@, output_key(), i as int);
                }
                Some(share(&self.outputs[i]))
            },
            None => None,
        }
    }

    /// Whether a device has an output stream.
    pub fn has_output(&self, device_id: &str) -> (r: bool)
        requires
            self.wf(),
        ensures
            r == self.output_map().contains_key(device_id@),
    {
        let found = self.find_output(device_id);
        proof {
            if let Some(i) = found {
                lemma_keyed_at(self.outputs@, output_key(), i as int);
            }
        }
        found.is_some()
    }

    /// The number of output streams.
    pub fn output_count(&self) -> (r: usize)
        requires
            self.wf(),
        ensures
            r == self.output_map().dom().len(),
    {
        proof {
            self.lemma_counts();
        }
        self.outputs.len()
    }

    /// The devices with an output stream, each once.
    pub fn output_device_ids(&self) -> (r: Vec<String>)
        requires
            self.wf(),
        ensures
            r@.len() == self.output_map().dom().len(),
            forall|k: int| 0 <= k < r@.len() ==> self.output_map().contains_key(#[trigger] r@[k]@),
            forall|d: Seq<char>| #[trigger]
                self.output_map().contains_key(d) ==> exists|k: int| 0 <= k < r@.len() && r@[k]@ == d,
    {
        proof {
            self.lemma_counts();
        }
        let mut out: Vec<String> = Vec::new();
        let mut i: usize = 0;
        while i < self.outputs.len()
            invariant
                self.wf(),
                i <= self.outputs@.len(),
                out@.len() == i,
                forall|k: int| 0 <= k < i ==> (#[trigger] out@[k])@ == self.outputs@[k].device_id_spec(),
            decreases self.outputs.len() - i,
        {
            out.push(String::from_str(self.outputs[i].device_id()));
            i = i + 1;
        }
        proof {
            assert forall|k: int| 0 <= k < out@.len() implies self.output_map().contains_key(#[trigger] out@[k]@) by {
                lemma_keyed_at(self.outputs@, output_key(), k);
            }
            assert forall|d: Seq<char>| #[trigger]
                self.output_map().contains_key(d) implies exists|k: int| 0 <= k < out@.len() && out@[k]@ == d by {
                let j = choose|j: int| 0 <= j < self.outputs@.len() && #[trigger] output_key()(self.outputs@[j]) == d;
                assert(out@[j]@ == d);
            }
        }
        out
    }

    /// The output streams, each once, in the order they were registered.
    pub fn output_streams(&self) -> (r: Vec<Arc<ActiveOutputStream<CO>>>)
        requires
            self.wf(),
        ensures
            r@.len() == self.output_map().dom().len(),
            forall|k: int| 0 <= k < r@.len() ==> self.output_map().contains_key((#[trigger] r@[k]).device_id_spec())
                && self.output_map()[r@[k].device_id_spec()] == r@[k],
            forall|d: Seq<char>| #[trigger]
                self.output_map().contains_key(d) ==> exists|k: int| 0 <= k < r@.len() && r@[k].device_id_spec() == d,
    {
        proof {
            self.lemma_counts();
        }
        let mut out: Vec<Arc<ActiveOutputStream<CO>>> = Vec::new();
        let mut i: usize = 0;
        while i < self.outputs.len()
            invariant
                self.wf(),
                i <= self.outputs@.len(),
                out@.len() == i,
                forall|k: int| 0 <= k < i ==> #[trigger] out@[k] == self.outputs@[k],
            decreases self.outputs.len() - i,
        {
            out.push(share(&self.outputs[i]));
            i = i + 1;
        }
        proof {
            assert forall|k: int| 0 <= k < out@.len() implies self.output_map().contains_key((#[trigger] out@[k]).device_id_spec())
                && self.output_map()[out@[k].device_id_spec()] == out@[k] by {
                lemma_keyed_at(self.outputs@, output_key(), k);
            }
            assert forall|d: Seq<char>| #[trigger]
                self.output_map().contains_key(d) implies exists|k: int| 0 <= k < out@.len() && out@[k].device_id_spec() == d by {
                let j = choose|j: int| 0 <= j < self.outputs@.len() && #[trigger] output_key()(self.outputs@[j]) == d;
                assert(out@[j].device_id_spec() == d);
            }
        }
        out
    }

    /// The number of streams, input and output.
    pub fn total_count(&self) -> (r: usize)
        requires
            self.wf(),
        ensures
            r == self.stream_total(),
    {
        proof {
            self.lemma_counts();
        }
        self.inputs.len() + self.outputs.len()
    }

    /// Whether there is no stream.
    pub fn is_empty(&self) -> (r: bool)
        requires
            self.wf(),
        ensures
            r == (self.stream_total() == 0),
    {
        self.total_count() == 0
    }

    /// Removes every stream.
    pub fn clear(&mut self)
        ensures
            final(self).wf(),
            final(self).input_map() == Map::<Seq<char>, Arc<ActiveInputStream<CI>>>::empty(),
            final(self).output_map() == Map::<Seq<char>, Arc<ActiveOutputStream<CO>>>::empty(),
    {
        self.inputs.clear();
        self.outputs.clear();
        proof {
            lemma_keyed_empty(input_key::<CI>());
            lemma_keyed_empty(output_key::<CO>());
        }
    }

    /// Statistics summed over the input streams. The counters are read while
    /// the audio threads may update them, so only the stream count is
    /// stated; the sums wrap.
    pub fn input_stats(&self) -> (r: AggregateStats)
        requires
            self.wf(),
        ensures
            r.stream_count == self.input_map().dom().len(),
    {
        proof {
            self.lemma_counts();
        }
        let mut stats = AggregateStats::default();
        let mut i: usize = 0;
        while i < self.inputs.len()
            invariant
                i <= self.inputs@.len(),
                stats.stream_count == i,
            decreases self.inputs.len() - i,
        {
            let s = self.inputs[i].stats();
            stats.total_callbacks = stats.total_callbacks.wrapping_add(s.callbacks());
            stats.total_underruns = stats.total_underruns.wrapping_add(s.underruns());
            stats.total_overruns = stats.total_overruns.wrapping_add(s.overruns());
            stats.stream_count = stats.stream_count + 1;
            i = i + 1;
        }
        stats
    }

    /// Statistics summed over the output streams. The counters are read while
    /// the audio threads may update them, so only the stream count is
    /// stated; the sums wrap.
    pub fn output_stats(&self) -> (r: AggregateStats)
        requires
            self.wf(),
        ensures
            r.stream_count == self.output_map().dom().len(),
    {
        proof {
            self.lemma_counts();
        }
        let mut stats = AggregateStats::default();
        let mut i: usize = 0;
        while i < self.outputs.len()
            invariant
                i <= self.outputs@.len(),
                stats.stream_count == i,
            decreases self.outputs.len() - i,
        {
            let s = self.outputs[i].stats();
            stats.total_callbacks = stats.total_callbacks.wrapping_add(s.callbacks());
            stats.total_underruns = stats.total_underruns.wrapping_add(s.underruns());
            stats.total_overruns = stats.total_overruns.wrapping_add(s.overruns());
            stats.stream_count = stats.stream_count + 1;
            i = i + 1;
        }
        stats
    }
}

impl<CI, CO> Default for StreamRegistry<CI, CO> {
    fn default() -> (r: Self)
        ensures
            r.wf(),
            r.input_map() == Map::<Seq<char>, Arc<ActiveInputStream<CI>>>::empty(),
            r.output_map() == Map::<Seq<char>, Arc<ActiveOutputStream<CO>>>::empty(),
    {
        Self::new()
    }
}

/// What the API reports of a stream: its device (as identifier and name),
/// direction, configured channels and rate. Whether it runs is read while
/// other threads may change it, so that field is not part of this.
pub open spec fn reports_stream(
    info: StreamInfo,
    device: Seq<char>,
    direction: StreamDirection,
    channels: u16,
    sample_rate: u32,
) -> bool {
    &&& info.device_id@ == device
    &&& info.device_name@ == device
    &&& info.direction == direction
    &&& info.channels == channels
    &&& info.sample_rate == sample_rate
}

/// The registered streams as the API reports them: the input streams in
/// the order they were registered, then the output streams.
pub fn stream_infos<CI, CO>(registry: &StreamRegistry<CI, CO>) -> (r: Vec<StreamInfo>)
    requires
        registry.wf(),
    ensures
        r@.len() == registry.stream_total(),
        forall|k: int|
            0 <= k < registry.input_map().dom().len() ==> registry.input_map().contains_key(#[trigger] r@[k].device_id@)
                && reports_stream(
                r@[k],
                r@[k].device_id@,
                StreamDirection::Input,
                registry.input_map()[r@[k].device_id@].config_spec().channels,
                registry.input_map()[r@[k].device_id@].config_spec().sample_rate,
            ),
        forall|k: int|
            registry.input_map().dom().len() <= k < r@.len() ==> registry.output_map().contains_key(
                #[trigger] r@[k].device_id@,
            ) && reports_stream(
                r@[k],
                r@[k].device_id@,
                StreamDirection::Output,
                registry.output_map()[r@[k].device_id@].config_spec().channels,
                registry.output_map()[r@[k].device_id@].config_spec().sample_rate,
            ),
        forall|d: Seq<char>| #[trigger]
            registry.input_map().contains_key(d) ==> exists|k: int|
                0 <= k < registry.input_map().dom().len() && r@[k].device_id@ == d,
        forall|d: Seq<char>| #[trigger]
            registry.output_map().contains_key(d) ==> exists|k: int|
                registry.input_map().dom().len() <= k < r@.len() && r@[k].device_id@ == d,
{
    let inputs = registry.input_streams();
    let outputs = registry.output_streams();
    let ghost ni = inputs@.len();
    let mut out: Vec<StreamInfo> = Vec::new();
    let mut i: usize = 0;
    while i < inputs.len()
        invariant
            i <= inputs@.len(),
            out@.len() == i,
            forall|k: int| 0 <= k < i ==> #[trigger] out@[k].device_id@ == inputs@[k].device_id_spec() && reports_stream(
                out@[k],
                inputs@[k].device_id_spec(),
                StreamDirection::Input,
                inputs@[k].config_spec().channels,
                inputs@[k].config_spec().sample_rate,
            ),
        decreases inputs.len() - i,
    {
        let s = &inputs[i];
        out.push(StreamInfo {
            device_id: String::from_str(s.device_id()),
            device_name: String::from_str(s.device_id()),
            direction: StreamDirection::Input,
            channels: s.config().channels,
            sample_rate: s.config().sample_rate,
            running: s.is_running(),
        });
        i = i + 1;
    }
    let mut j: usize = 0;
    while j < outputs.len()
        invariant
            j <= outputs@.len(),
            ni == inputs@.len(),
            out@.len() == ni + j,
            forall|k: int| 0 <= k < ni ==> #[trigger] out@[k].device_id@ == inputs@[k].device_id_spec() && reports_stream(
                out@[k],
                inputs@[k].device_id_spec(),
                StreamDirection::Input,
                inputs@[k].config_spec().channels,
                inputs@[k].config_spec().sample_rate,
            ),
            forall|k: int|
                ni <= k < ni + j ==> #[trigger] out@[k].device_id@ == outputs@[k - ni].device_id_spec() && reports_stream(
                    out@[k],
                    outputs@[k - ni].device_id_spec(),
                    StreamDirection::Output,
                    outputs@[k - ni].config_spec().channels,
                    outputs@[k - ni].config_spec().sample_rate,
                ),
        decreases outputs.len() - j,
    {
        let s = &outputs[j];
        out.push(StreamInfo {
            device_id: String::from_str(s.device_id()),
            device_name: String::from_str(s.device_id()),
            direction: StreamDirection::Output,
            channels: s.config().channels,
            sample_rate: s.config().sample_rate,
            running: s.is_running(),
        });
        j = j + 1;
    }
    proof {
        assert forall|k: int|
            0 <= k < registry.input_map().dom().len() implies registry.input_map().contains_key(#[trigger] out@[k].device_id@)
            && reports_stream(
            out@[k],
            out@[k].device_id@,
            StreamDirection::Input,
            registry.input_map()[out@[k].device_id@].config_spec().channels,
            registry.input_map()[out@[k].device_id@].config_spec().sample_rate,
        ) by {
            assert(registry.input_map()[inputs@[k].device_id_spec()] == inputs@[k]);
        }
        assert forall|k: int|
            registry.input_map().dom().len() <= k < out@.len() implies registry.output_map().contains_key(
            #[trigger] out@[k].device_id@,
        ) && reports_stream(
            out@[k],
            out@[k].device_id@,
            StreamDirection::Output,
            registry.output_map()[out@[k].device_id@].config_spec().channels,
            registry.output_map()[out@[k].device_id@].config_spec().sample_rate,
        ) by {
            assert(registry.output_map()[outputs@[k - ni].device_id_spec()] == outputs@[k - ni]);
        }
        assert forall|d: Seq<char>| #[trigger]
            registry.input_map().contains_key(d) implies exists|k: int|
            0 <= k < registry.input_map().dom().len() && out@[k].device_id@ == d by {
            let k = choose|k: int| 0 <= k < inputs@.len() && inputs@[k].device_id_spec() == d;
            assert(out@[k].device_id@ == d);
        }
        assert forall|d: Seq<char>| #[trigger]
            registry.output_map().contains_key(d) implies exists|k: int|
            registry.input_map().dom().len() <= k < out@.len() && out@[k].device_id@ == d by {
            let k = choose|k: int| 0 <= k < outputs@.len() && outputs@[k].device_id_spec() == d;
            assert(out@[ni + k].device_id@ == d);
        }
    }
    out
}

} // verus!
