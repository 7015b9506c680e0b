//! Headroom handling for destinations that mix several sources.

use vstd::prelude::*;
use std::sync::atomic::{AtomicU8, Ordering};
use crate::atomic::{AtomicF32, MINUS_SIX_BITS};
use crate::connection::{ConnectionId, ConnectionIdView, Pulled, SourceConnection};

verus! {

/// Headroom management mode for N:1 mixing: how a summed signal that
/// exceeds [-1.0, 1.0] is handled.
#[derive(Debug, Clone, Copy, PartialEq, Eq, Structural)]
pub enum HeadroomMode {
    /// Hard clip samples to [-1.0, 1.0] (the default).
    Clip,
    /// Scale the whole buffer when its peak exceeds 1.0.
    AutoGain,
    /// Soft-knee limiting.
    Limiter,
    /// A fixed, user-specified attenuation.
    Manual,
}

impl Default for HeadroomMode {
    fn default() -> (r: Self)
        ensures
            r == HeadroomMode::Clip,
    {
        HeadroomMode::Clip
    }
}

impl HeadroomMode {
    /// The mode's code.
    pub open spec fn spec_code(self) -> u8 {
        match self {
            HeadroomMode::Clip => 0,
            HeadroomMode::AutoGain => 1,
            HeadroomMode::Limiter => 2,
            HeadroomMode::Manual => 3,
        }
    }

    /// The mode with code `value`, if any.
    pub open spec fn spec_from_code(value: u8) -> Option<Self> {
        if value == 0 { Some(HeadroomMode::Clip) }
        else if value == 1 { Some(HeadroomMode::AutoGain) }
        else if value == 2 { Some(HeadroomMode::Limiter) }
        else if value == 3 { Some(HeadroomMode::Manual) }
        else { None }
    }

    /// The mode with code `value`, or `Clip` where none has it.
    pub open spec fn spec_decode(value: u8) -> Self {
        match Self::spec_from_code(value) {
            Some(m) => m,
            None => HeadroomMode::Clip,
        }
    }

    /// The mode's code.
    pub fn to_u8(self) -> (r: u8)
        ensures
            r == self.spec_code(),
    {
        match self {
            HeadroomMode::Clip => 0,
            HeadroomMode::AutoGain => 1,
            HeadroomMode::Limiter => 2,
            HeadroomMode::Manual => 3,
        }
    }

    /// Converts from a u8 value.
    pub fn from_u8(value: u8) -> (r: Option<Self>)
        ensures
            r == Self::spec_from_code(value),
    {
        match value {
            0 => Some(HeadroomMode::Clip),
            1 => Some(HeadroomMode::AutoGain),
            2 => Some(HeadroomMode::Limiter),
            3 => Some(HeadroomMode::Manual),
            _ => None,
        }
    }
}

/// Every headroom mode survives the round trip through its code, and every
/// code that names a mode is that mode's code.
pub proof fn lemma_headroom_code_roundtrip(m: HeadroomMode, v: u8)
    ensures
        HeadroomMode::spec_from_code(m.spec_code()) == Some(m),
        HeadroomMode::spec_decode(m.spec_code()) == m,
        HeadroomMode::spec_from_code(v) matches Some(t) ==> t.spec_code() == v,
{
}

/// Atomic wrapper for [`HeadroomMode`].
///
/// Other threads may store at any time, so what a load returns is not
/// stated beyond its being the decoding of some code.
#[derive(Debug)]
pub struct AtomicHeadroomMode {
    value: AtomicU8,
}

impl AtomicHeadroomMode {
    /// Creates a new atomic headroom mode.
    pub fn new(mode: HeadroomMode) -> (r: Self) {
        AtomicHeadroomMode { value: AtomicU8::new(mode.to_u8()) }
    }

    /// Loads the current mode; a code that names no mode reads as `Clip`.
    pub fn load(&self) -> (r: HeadroomMode)
        ensures
            exists|v: u8| r == #[trigger] HeadroomMode::spec_decode(v),
    {
        let v = self.value.load(Ordering::Acquire);
        let r = match HeadroomMode::from_u8(v) {
            Some(m) => m,
            None => HeadroomMode::Clip,
        };
        assert(r == HeadroomMode::spec_decode(v));
        r
    }

    /// Stores a new mode.
    pub fn store(&self, mode: HeadroomMode) {
        self.value.store(mode.to_u8(), Ordering::Release);
    }
}

impl Default for AtomicHeadroomMode {
    fn default() -> (r: Self) {
        Self::new(HeadroomMode::Clip)
    }
}

/// The identifiers of a list of sources.
pub open spec fn source_ids(sources: Seq<SourceConnection>) -> Seq<ConnectionIdView> {
    sources.map_values(|c: SourceConnection| c.id_spec())
}

/// A destination channel that mixes N source connections.
///
/// The mixing itself is floating-point work done by the caller, source by
/// source, through [`DestinationChannel::pull_source`].
pub struct DestinationChannel {
    id: String,
    headroom_mode: AtomicHeadroomMode,
    manual_headroom_db: AtomicF32,
    sources: Vec<SourceConnection>,
}

impl DestinationChannel {
    /// The destination's identifier.
    pub closed spec fn id_spec(&self) -> Seq<char> {
        self.id@
    }

    /// The sources feeding the destination, in the order they were added.
    pub closed spec fn sources_spec(&self) -> Seq<SourceConnection> {
        self.sources@
    }

    /// Every source is well formed.
    pub closed spec fn wf(&self) -> bool {
        forall|i: int| 0 <= i < self.sources@.len() ==> (#[trigger] self.sources@[i]).wf()
    }

    /// Creates a destination with no sources, `Clip` headroom and -6 dB of
    /// manual headroom. The buffer size is the caller's mixing block.
    pub fn new(id: &str, buffer_size: usize) -> (r: Self)
        ensures
            r.wf(),
            r.id_spec() == id@,
            r.sources_spec() == Seq::<SourceConnection>::empty(),
    {
        DestinationChannel {
            id: String::from_str(id),
            headroom_mode: AtomicHeadroomMode::default(),
            manual_headroom_db: AtomicF32::from_bits(MINUS_SIX_BITS),
            sources: Vec::new(),
        }
    }

    /// The destination's identifier.
    pub fn id(&self) -> (r: &str)
        ensures
            r@ == self.id_spec(),
    {
        self.id.as_str()
    }

    /// The current headroom mode.
    pub fn headroom_mode(&self) -> (r: HeadroomMode)
        ensures
            exists|v: u8| r == #[trigger] HeadroomMode::spec_decode(v),
    {
        self.headroom_mode.load()
    }

    /// Sets the headroom mode.
    pub fn set_headroom_mode(&self, mode: HeadroomMode) {
        self.headroom_mode.store(mode);
    }

    /// The bit pattern of the manual headroom, in dB.
    pub fn manual_headroom_db_bits(&self) -> (r: u32) {
        self.manual_headroom_db.get_bits()
    }

    /// Stores the manual headroom, in dB, by its bit pattern.
    pub fn set_manual_headroom_db_bits(&self, bits: u32) {
        self.manual_headroom_db.set_bits(bits);
    }

    /// Adds a source.
    pub fn add_source(&mut self, source: SourceConnection)
        requires
            old(self).wf(),
            source.wf(),
        ensures
            final(self).wf(),
            final(self).id_spec() == old(self).id_spec(),
            final(self).sources_spec() == old(self).sources_spec().push(source),
    {
        self.sources.push(source);
    }

    /// Removes every source with identifier `id`; says whether any went.
    pub fn remove_source(&mut self, id: &ConnectionId) -> (r: bool)
        requires
            old(self).wf(),
        ensures
            final(self).wf(),
            final(self).id_spec() == old(self).id_spec(),
            final(self).sources_spec() == old(self).sources_spec().filter(|c: SourceConnection| c.id_spec() != id@),
            r == source_ids(old(self).sources_spec()).contains(id@),
    {
        let ghost old_sources = self.sources@;
        let ghost keep = |c: SourceConnection| c.id_spec() != id@;
        let ghost n = old_sources.len();
        let mut kept: Vec<SourceConnection> = Vec::new();
        let mut removed = false;
        let mut rest: Vec<SourceConnection> = Vec::new();
        std::mem::swap(&mut rest, &mut self.sources);
        proof {
            assert(old_sources.skip(0) =~= old_sources);
            assert(old_sources.take(0) =~= Seq::<SourceConnection>::empty());
            reveal(Seq::filter);
            assert(source_ids(old_sources.take(0)) =~= Seq::<ConnectionIdView>::empty());
        }
        while rest.len() > 0
            invariant
                n == old_sources.len(),
                rest@.len() <= n,
                rest@ == old_sources.skip(n - rest@.len()),
                keep == (|c: SourceConnection| c.id_spec() != id@),
                kept@ == old_sources.take(n - rest@.len()).filter(keep),
                removed == source_ids(old_sources.take(n - rest@.len())).contains(id@),
                forall|i: int| 0 <= i < old_sources.len() ==> (#[trigger] old_sources[i]).wf(),
                forall|i: int| 0 <= i < kept@.len() ==> (#[trigger] kept@[i]).wf(),
                self.id@ == old(self).id@,
            decreases rest.len(),
        {
            let ghost k = n - rest@.len();
            let c = rest.remove(0);
            proof {
                assert(c == old_sources[k]);
                assert(rest@ =~= old_sources.skip(k + 1));
                assert(old_sources.take(k + 1).drop_last() =~= old_sources.take(k));
                assert(old_sources.take(k + 1).last() == c);
                reveal(Seq::filter);
                assert(source_ids(old_sources.take(k + 1)) =~= source_ids(old_sources.take(k)).push(c.id_spec()));
            }
            if !c.id().same_as(id) {
                kept.push(c);
            } else {
                removed = true;
            }
            proof {
                let prev = source_ids(old_sources.take(k));
                let now = prev.push(c.id_spec());
                if now.contains(id@) && !prev.contains(id@) {
                    let j = choose|j: int| 0 <= j < now.len() && now[j] == id@;
                    if j < prev.len() {
                        assert(prev[j] == now[j]);
                    }
                }
                if prev.contains(id@) {
                    let j = choose|j: int| 0 <= j < prev.len() && prev[j] == id@;
                    assert(now[j] == prev[j]);
                }
                if c.id_spec() == id@ {
                    assert(now[prev.len() as int] == id@);
                }
            }
        }
        proof {
            assert(old_sources.take(n as int) =~= old_sources);
        }
        self.sources = kept;
        removed
    }

    /// The number of sources.
    pub fn source_count(&self) -> (r: usize)
        ensures
            r == self.sources_spec().len(),
    {
        self.sources.len()
    }

    /// Sets the mute state of the source at `index`; nothing else changes.
    pub fn set_source_muted(&mut self, index: usize, muted: bool)
        requires
            old(self).wf(),
            index < old(self).sources_spec().len(),
        ensures
            final(self).wf(),
            final(self).id_spec() == old(self).id_spec(),
            final(self).sources_spec() == old(self).sources_spec().update(index as int, final(self).sources_spec()[index as int]),
            final(self).sources_spec()[index as int].muted_spec() == muted,
            final(self).sources_spec()[index as int].enabled_spec() == old(self).sources_spec()[index as int].enabled_spec(),
            final(self).sources_spec()[index as int].id_spec() == old(self).sources_spec()[index as int].id_spec(),
            final(self).sources_spec()[index as int].buffer_spec() == old(self).sources_spec()[index as int].buffer_spec(),
    {
        assert(self.sources@[index as int].wf());
        self.sources[index].set_muted(muted);
        assert forall|i: int| 0 <= i < self.sources@.len() implies (#[trigger] self.sources@[i]).wf() by {
            if i != index {
                assert(self.sources@[i] == old(self).sources@[i]);
            }
        }
    }

    /// Sets the enabled state of the source at `index`; nothing else
    /// changes.
    pub fn set_source_enabled(&mut self, index: usize, enabled: bool)
        requires
            old(self).wf(),
            index < old(self).sources_spec().len(),
        ensures
            final(self).wf(),
            final(self).id_spec() == old(self).id_spec(),
            final(self).sources_spec() == old(self).sources_spec().update(index as int, final(self).sources_spec()[index as int]),
            final(self).sources_spec()[index as int].enabled_spec() == enabled,
            final(self).sources_spec()[index as int].muted_spec() == old(self).sources_spec()[index as int].muted_spec(),
            final(self).sources_spec()[index as int].id_spec() == old(self).sources_spec()[index as int].id_spec(),
            final(self).sources_spec()[index as int].buffer_spec() == old(self).sources_spec()[index as int].buffer_spec(),
    {
        assert(self.sources@[index as int].wf());
        self.sources[index].set_enabled(enabled);
        assert forall|i: int| 0 <= i < self.sources@.len() implies (#[trigger] self.sources@[i]).wf() by {
            if i != index {
                assert(self.sources@[i] == old(self).sources@[i]);
            }
        }
    }

    /// The source at `index`.
    pub fn source(&self, index: usize) -> (r: &SourceConnection)
        requires
            index < self.sources_spec().len(),
        ensures
            *r == self.sources_spec()[index as int],
            self.wf() ==> r.wf(),
    {
        &self.sources[index]
    }

    /// Pulls samples from source `index` into `output`, as
    /// [`SourceConnection::pull`] does, for the caller to mix.
    pub fn pull_source(&mut self, index: usize, output: &mut [u32]) -> (r: Pulled)
        requires
            old(self).wf(),
            index < old(self).sources_spec().len(),
        ensures
            final(self).wf(),
            final(self).id_spec() == old(self).id_spec(),
            source_ids(final(self).sources_spec()) == source_ids(old(self).sources_spec()),
            final(output)@.len() == old(output)@.len(),
    {
        self.sources[index].pull(output)
    }

    /// The bit pattern of the gain of source `index`.
    pub fn source_gain_bits(&self, index: usize) -> (r: u32)
        requires
            index < self.sources_spec().len(),
    {
        self.sources[index].gain_bits()
    }
}

} // verus!
