//! Routing snapshots for real-time audio processing.
//!
//! A snapshot is an immutable routing configuration that audio callbacks
//! read without locking: the control thread builds a new snapshot on each
//! change and swaps it in (read-copy-update). Each destination channel has
//! a fixed array of source slots, so the audio path never allocates.

use vstd::prelude::*;
use std::sync::atomic::{AtomicBool, AtomicU8, Ordering};
use crate::atomic::{AtomicF32, UNITY_BITS, MINUS_SIX_BITS};
use crate::destination::HeadroomMode;
use crate::text::str_equal;

verus! {

/// Maximum number of sources that can be mixed into a single destination.
pub const MAX_SOURCES_PER_DEST: usize = 16;

/// Maximum number of destinations in a snapshot.
pub const MAX_DESTINATIONS: usize = 64;

/// A source slot in the routing matrix.
///
/// The gain, mute and enable flags are atomic so that the control thread
/// can change them while the audio thread reads them; the ring buffer
/// index is fixed once the slot exists.
#[derive(Debug)]
pub struct SourceSlot {
    /// Index into the global ring buffer pool.
    pub ring_buffer_index: usize,
    /// Gain multiplier, held as the bit pattern of an `f32`.
    pub gain: AtomicF32,
    /// When true, this source contributes zero to the mix.
    pub muted: AtomicBool,
    /// When false, this source is bypassed.
    pub enabled: AtomicBool,
}

impl SourceSlot {
    /// Creates a new source slot: unity gain, not muted, enabled.
    pub fn new(ring_buffer_index: usize) -> (r: Self)
        ensures
            r.ring_buffer_index == ring_buffer_index,
    {
        SourceSlot {
            ring_buffer_index,
            gain: AtomicF32::from_bits(UNITY_BITS),
            muted: AtomicBool::new(false),
            enabled: AtomicBool::new(true),
        }
    }
}

impl Clone for SourceSlot {
    /// A new slot for the same ring buffer, holding the current parameters.
    fn clone(&self) -> (r: Self)
        ensures
            r.ring_buffer_index == self.ring_buffer_index,
    {
        SourceSlot {
            ring_buffer_index: self.ring_buffer_index,
            gain: AtomicF32::from_bits(self.gain.load_bits(Ordering::Relaxed)),
            muted: AtomicBool::new(self.muted.load(Ordering::Relaxed)),
            enabled: AtomicBool::new(self.enabled.load(Ordering::Relaxed)),
        }
    }
}

/// Atomic wrapper for [`HeadroomMode`] inside snapshots.
///
/// Other threads may store at any time, so what a load returns is not
/// stated beyond its being the decoding of some code.
#[derive(Debug)]
pub struct AtomicHeadroomMode(AtomicU8);

impl AtomicHeadroomMode {
    /// Creates a new atomic headroom mode.
    pub fn new(mode: HeadroomMode) -> (r: Self) {
        AtomicHeadroomMode(AtomicU8::new(mode.to_u8()))
    }

    /// Loads the current mode; a code that names no mode reads as `Clip`.
    pub fn load(&self) -> (r: HeadroomMode)
        ensures
            exists|v: u8| r == #[trigger] HeadroomMode::spec_decode(v),
    {
        let v = self.0.load(Ordering::Relaxed);
        let r = match v {
            0 => HeadroomMode::Clip,
            1 => HeadroomMode::AutoGain,
            2 => HeadroomMode::Limiter,
            3 => HeadroomMode::Manual,
            _ => HeadroomMode::Clip,
        };
        assert(r == HeadroomMode::spec_decode(v));
        r
    }

    /// Stores a new mode.
    pub fn store(&self, mode: HeadroomMode) {
        self.0.store(mode.to_u8(), Ordering::Relaxed);
    }
}

impl Clone for AtomicHeadroomMode {
    fn clone(&self) -> (r: Self) {
        Self::new(self.load())
    }
}

/// The ring buffer index of a slot, if the slot is occupied.
pub open spec fn slot_index(slot: Option<SourceSlot>) -> Option<usize> {
    match slot {
        Some(s) => Some(s.ring_buffer_index),
        None => None,
    }
}

/// The number of occupied entries of `s`.
pub open spec fn count_occupied(s: Seq<Option<usize>>) -> nat
    decreases s.len(),
{
    if s.len() == 0 {
        0
    } else {
        count_occupied(s.drop_last()) + if s.last() is Some { 1nat } else { 0nat }
    }
}

/// Changing entry `i` of `s` changes the count by what that entry changed.
proof fn lemma_count_update(s: Seq<Option<usize>>, i: int, v: Option<usize>)
    requires
        0 <= i < s.len(),
    ensures
        count_occupied(s.update(i, v)) + (if s[i] is Some { 1int } else { 0int })
            == count_occupied(s) + (if v is Some { 1int } else { 0int }),
    decreases s.len(),
{
    if i == s.len() - 1 {
        assert(s.update(i, v).drop_last() =~= s.drop_last());
    } else {
        lemma_count_update(s.drop_last(), i, v);
        assert(s.update(i, v).drop_last() =~= s.drop_last().update(i, v));
    }
}

/// The count of occupied entries never exceeds the length.
proof fn lemma_count_bound(s: Seq<Option<usize>>)
    ensures
        count_occupied(s) <= s.len(),
    decreases s.len(),
{
    if s.len() > 0 {
        lemma_count_bound(s.drop_last());
    }
}

/// An immutable snapshot of a destination channel's routing configuration.
#[derive(Debug)]
pub struct DestinationSnapshot {
    /// Destination identifier (e.g., "LOCAL:DeviceName:1").
    pub dest_id: String,
    /// Device ID this destination belongs to.
    pub device_id: String,
    /// Channel index within the device (0-based).
    pub channel_index: usize,
    /// Fixed-size array of source slots; empty slots are `None`.
    pub sources: [Option<SourceSlot>; 16],
    /// Number of occupied slots.
    pub active_count: usize,
    /// Headroom mode for this destination.
    pub headroom_mode: AtomicHeadroomMode,
    /// Manual headroom in dB (used when mode is Manual), as `f32` bits.
    pub manual_headroom_db: AtomicF32,
}

impl DestinationSnapshot {
    /// The ring buffer index of each slot, `None` where the slot is empty.
    pub open spec fn slots(&self) -> Seq<Option<usize>> {
        Seq::new(16, |i: int| slot_index(self.sources@[i]))
    }

    /// `active_count` counts the occupied slots.
    pub open spec fn wf(&self) -> bool {
        self.active_count == count_occupied(self.slots())
    }

    /// Whether slot `i` is the first empty one.
    pub open spec fn first_empty(slots: Seq<Option<usize>>, i: int) -> bool {
        0 <= i < slots.len() && slots[i] is None && forall|j: int| 0 <= j < i ==> slots[j] is Some
    }

    /// Whether slot `i` is the first one holding `index`.
    pub open spec fn first_holding(slots: Seq<Option<usize>>, index: usize, i: int) -> bool {
        0 <= i < slots.len() && slots[i] == Some(index) && forall|j: int| 0 <= j < i ==> slots[j] != Some(index)
    }

    /// Creates a new empty destination snapshot: no sources, `Clip`
    /// headroom, -6 dB manual headroom.
    pub fn new(dest_id: String, device_id: String, channel_index: usize) -> (r: Self)
        ensures
            r.dest_id@ == dest_id@,
            r.device_id@ == device_id@,
            r.channel_index == channel_index,
            r.slots() == Seq::new(16, |i: int| None::<usize>),
            r.active_count == 0,
            r.wf(),
    {
        let r = DestinationSnapshot {
            dest_id,
            device_id,
            channel_index,
            sources: [None, None, None, None, None, None, None, None, None, None, None, None, None, None, None, None],
            active_count: 0,
            headroom_mode: AtomicHeadroomMode::new(HeadroomMode::Clip),
            manual_headroom_db: AtomicF32::from_bits(MINUS_SIX_BITS),
        };
        assert(r.slots() =~= Seq::new(16, |i: int| None::<usize>));
        proof {
            let s = r.slots();
            lemma_count_zero(s, 16);
            assert(s.take(16) =~= s);
        }
        r
    }

    /// Adds a source to the first empty slot.
    /// Returns `true` if the source was added, `false` if the destination is full.
    pub fn add_source(&mut self, ring_buffer_index: usize) -> (r: bool)
        requires
            old(self).active_count < usize::MAX,
        ensures
            r == exists|i: int| Self::first_empty(old(self).slots(), i),
            r ==> exists|i: int| Self::first_empty(old(self).slots(), i)
                && final(self).slots() == old(self).slots().update(i, Some(ring_buffer_index)),
            r ==> final(self).active_count == old(self).active_count + 1,
            !r ==> final(self).slots() == old(self).slots() && final(self).active_count == old(self).active_count,
            old(self).wf() ==> final(self).wf(),
            final(self).dest_id == old(self).dest_id,
            final(self).device_id == old(self).device_id,
            final(self).channel_index == old(self).channel_index,
    {
        let ghost old_slots = self.slots();
        let mut i: usize = 0;
        while i < 16
            invariant
                0 <= i <= 16,
                self.slots() == old_slots,
                self.active_count == old(self).active_count,
                self.dest_id == old(self).dest_id,
                self.device_id == old(self).device_id,
                self.channel_index == old(self).channel_index,
                old(self).active_count < usize::MAX,
                old_slots == old(self).slots(),
                forall|j: int| 0 <= j < i ==> old_slots[j] is Some,
            decreases 16 - i,
        {
            if self.sources[i].is_none() {
                assert(old_slots[i as int] is None);
                self.sources.set(i, Some(SourceSlot::new(ring_buffer_index)));
                self.active_count = self.active_count + 1;
                assert(self.slots() =~= old_slots.update(i as int, Some(ring_buffer_index)));
                assert(Self::first_empty(old_slots, i as int));
                proof {
                    lemma_count_update(old_slots, i as int, Some(ring_buffer_index));
                }
                return true;
            }
            assert(old_slots[i as int] is Some);
            i = i + 1;
        }
        assert forall|k: int| !Self::first_empty(old_slots, k) by {
            if 0 <= k < 16 {
                assert(old_slots[k] is Some);
            }
        }
        false
    }

    /// Removes the first source reading from `ring_buffer_index`.
    /// Returns `true` if the source was found and removed.
    pub fn remove_source(&mut self, ring_buffer_index: usize) -> (r: bool)
        ensures
            r == old(self).slots().contains(Some(ring_buffer_index)),
            r ==> exists|i: int| Self::first_holding(old(self).slots(), ring_buffer_index, i)
                && final(self).slots() == old(self).slots().update(i, None),
            r ==> final(self).active_count == (if old(self).active_count == 0 { 0 } else { old(self).active_count - 1 }),
            !r ==> final(self).slots() == old(self).slots() && final(self).active_count == old(self).active_count,
            old(self).wf() ==> final(self).wf(),
            final(self).dest_id == old(self).dest_id,
            final(self).device_id == old(self).device_id,
            final(self).channel_index == old(self).channel_index,
    {
        let ghost old_slots = self.slots();
        let mut i: usize = 0;
        while i < 16
            invariant
                0 <= i <= 16,
                self.slots() == old_slots,
                self.active_count == old(self).active_count,
                self.dest_id == old(self).dest_id,
                self.device_id == old(self).device_id,
                self.channel_index == old(self).channel_index,
                old_slots == old(self).slots(),
                forall|j: int| 0 <= j < i ==> old_slots[j] != Some(ring_buffer_index),
            decreases 16 - i,
        {
            let hit = match &self.sources[i] {
                Some(source) => source.ring_buffer_index == ring_buffer_index,
                None => false,
            };
            assert(hit == (old_slots[i as int] == Some(ring_buffer_index)));
            if hit {
                self.sources.set(i, None);
                self.active_count = if self.active_count == 0 { 0 } else { self.active_count - 1 };
                assert(self.slots() =~= old_slots.update(i as int, None));
                assert(Self::first_holding(old_slots, ring_buffer_index, i as int));
                assert(old_slots.contains(Some(ring_buffer_index)));
                proof {
                    lemma_count_update(old_slots, i as int, None);
                }
                return true;
            }
            i = i + 1;
        }
        assert(!old_slots.contains(Some(ring_buffer_index)));
        false
    }

    /// Finds the first source slot reading from `ring_buffer_index`.
    pub fn find_source(&self, ring_buffer_index: usize) -> (r: Option<&SourceSlot>)
        ensures
            r is Some == self.slots().contains(Some(ring_buffer_index)),
            r matches Some(s) ==> s.ring_buffer_index == ring_buffer_index
                && exists|i: int| Self::first_holding(self.slots(), ring_buffer_index, i) && self.sources@[i] == Some(*s),
    {
        let ghost slots = self.slots();
        let mut i: usize = 0;
        while i < 16
            invariant
                0 <= i <= 16,
                slots == self.slots(),
                forall|j: int| 0 <= j < i ==> slots[j] != Some(ring_buffer_index),
            decreases 16 - i,
        {
            match &self.sources[i] {
                Some(source) => {
                    if source.ring_buffer_index == ring_buffer_index {
                        assert(Self::first_holding(slots, ring_buffer_index, i as int));
                        assert(slots[i as int] == Some(ring_buffer_index));
                        return Some(source);
                    }
                },
                None => {},
            }
            i = i + 1;
        }
        assert(!slots.contains(Some(ring_buffer_index)));
        None
    }
}

impl Clone for DestinationSnapshot {
    /// An independent copy with the same identity, slots and count, and
    /// the current parameters.
    fn clone(&self) -> (r: Self)
        ensures
            same_destination(r, *self),
    {
        let mut sources: [Option<SourceSlot>; 16] =
            [None, None, None, None, None, None, None, None, None, None, None, None, None, None, None, None];
        let mut i: usize = 0;
        while i < 16
            invariant
                0 <= i <= 16,
                forall|j: int| 0 <= j < i ==> slot_index(#[trigger] sources@[j]) == slot_index(self.sources@[j]),
            decreases 16 - i,
        {
            let copy = match &self.sources[i] {
                Some(slot) => Some(slot.clone()),
                None => None,
            };
            sources.set(i, copy);
            i = i + 1;
        }
        let r = DestinationSnapshot {
            dest_id: self.dest_id.clone(),
            device_id: self.device_id.clone(),
            channel_index: self.channel_index,
            sources,
            active_count: self.active_count,
            headroom_mode: self.headroom_mode.clone(),
            manual_headroom_db: self.manual_headroom_db.clone(),
        };
        assert(r.slots() =~= self.slots());
        r
    }
}

/// Two destination snapshots agree on identity, slots and count.
pub open spec fn same_destination(a: DestinationSnapshot, b: DestinationSnapshot) -> bool {
    &&& a.dest_id@ == b.dest_id@
    &&& a.device_id@ == b.device_id@
    &&& a.channel_index == b.channel_index
    &&& a.slots() == b.slots()
    &&& a.active_count == b.active_count
}

/// An immutable snapshot of the entire routing configuration: what the
/// audio thread reads.
#[derive(Debug)]
pub struct RoutingSnapshot {
    /// All destination channels indexed by position.
    pub destinations: Vec<DestinationSnapshot>,
    /// Generation counter for detecting stale snapshots.
    pub generation: u64,
}

/// Whether position `i` is the first destination with identifier `id`.
pub open spec fn first_dest(ds: Seq<DestinationSnapshot>, id: Seq<char>, i: int) -> bool {
    0 <= i < ds.len() && ds[i].dest_id@ == id && forall|j: int| 0 <= j < i ==> ds[j].dest_id@ != id
}

/// Whether some destination has identifier `id`.
pub open spec fn has_dest(ds: Seq<DestinationSnapshot>, id: Seq<char>) -> bool {
    exists|i: int| 0 <= i < ds.len() && #[trigger] ds[i].dest_id@ == id
}

impl RoutingSnapshot {
    /// Creates a new empty routing snapshot.
    pub fn new() -> (r: Self)
        ensures
            r.destinations@.len() == 0,
            r.generation == 0,
    {
        RoutingSnapshot { destinations: Vec::new(), generation: 0 }
    }

    /// Creates a snapshot with pre-allocated capacity.
    pub fn with_capacity(capacity: usize) -> (r: Self)
        ensures
            r.destinations@.len() == 0,
            r.generation == 0,
    {
        RoutingSnapshot { destinations: Vec::with_capacity(capacity), generation: 0 }
    }

    /// The position of the first destination with identifier `dest_id`.
    fn position(&self, dest_id: &str) -> (r: Option<usize>)
        ensures
            r is None <==> !has_dest(self.destinations@, dest_id@),
            r matches Some(i) ==> first_dest(self.destinations@, dest_id@, i as int),
    {
        let n = self.destinations.len();
        let mut i: usize = 0;
        while i < n
            invariant
                n == self.destinations@.len(),
                i <= n,
                forall|j: int| 0 <= j < i ==> self.destinations@[j].dest_id@ != dest_id@,
            decreases n - i,
        {
            if str_equal(self.destinations[i].dest_id.as_str(), dest_id) {
                return Some(i);
            }
            i = i + 1;
        }
        None
    }

    /// Finds the first destination with the given ID.
    pub fn find_destination(&self, dest_id: &str) -> (r: Option<&DestinationSnapshot>)
        ensures
            r is None <==> !has_dest(self.destinations@, dest_id@),
            r matches Some(d) ==> exists|i: int| first_dest(self.destinations@, dest_id@, i) && self.destinations@[i] == *d,
    {
        match self.position(dest_id) {
            Some(i) => Some(&self.destinations[i]),
            None => None,
        }
    }

    /// Finds the first destination with the given ID, for modification.
    pub fn find_destination_mut(&mut self, dest_id: &str) -> (r: Option<&mut DestinationSnapshot>)
        ensures
            r is None <==> !has_dest(old(self).destinations@, dest_id@),
            r is None ==> final(self).destinations@ == old(self).destinations@,
            r matches Some(d) ==> exists|i: int| first_dest(old(self).destinations@, dest_id@, i)
                && old(self).destinations@[i] == *d
                && final(self).destinations@ == old(self).destinations@.update(i, *final(d)),
            final(self).generation == old(self).generation,
    {
        match self.position(dest_id) {
            Some(i) => Some(&mut self.destinations[i]),
            None => None,
        }
    }

    /// Gets a destination by index.
    pub fn get_destination(&self, index: usize) -> (r: Option<&DestinationSnapshot>)
        ensures
            index < self.destinations@.len() ==> r == Some(&self.destinations@[index as int]),
            index >= self.destinations@.len() ==> r is None,
    {
        if index < self.destinations.len() {
            Some(&self.destinations[index])
        } else {
            None
        }
    }

    /// Adds or updates a destination: replaces the first destination with
    /// the same ID, or appends.
    pub fn upsert_destination(&mut self, dest: DestinationSnapshot)
        ensures
            has_dest(old(self).destinations@, dest.dest_id@) ==> exists|i: int|
                first_dest(old(self).destinations@, dest.dest_id@, i)
                && final(self).destinations@ == old(self).destinations@.update(i, dest),
            !has_dest(old(self).destinations@, dest.dest_id@) ==>
                final(self).destinations@ == old(self).destinations@.push(dest),
            final(self).generation == old(self).generation,
    {
        match self.position(dest.dest_id.as_str()) {
            Some(i) => {
                self.destinations.set(i, dest);
            },
            None => {
                self.destinations.push(dest);
            },
        }
    }

    /// Removes the first destination with the given ID; returns whether
    /// one was found.
    pub fn remove_destination(&mut self, dest_id: &str) -> (r: bool)
        ensures
            r == has_dest(old(self).destinations@, dest_id@),
            r ==> exists|i: int| first_dest(old(self).destinations@, dest_id@, i)
                && final(self).destinations@ == old(self).destinations@.remove(i),
            !r ==> final(self).destinations@ == old(self).destinations@,
            final(self).generation == old(self).generation,
    {
        match self.position(dest_id) {
            Some(pos) => {
                self.destinations.remove(pos);
                true
            },
            None => false,
        }
    }
}

impl Default for RoutingSnapshot {
    fn default() -> (r: Self)
        ensures
            r.destinations@.len() == 0,
            r.generation == 0,
    {
        Self::new()
    }
}

impl Clone for RoutingSnapshot {
    /// An independent copy with the same generation and destinations.
    fn clone(&self) -> (r: Self)
        ensures
            r.generation == self.generation,
            r.destinations@.len() == self.destinations@.len(),
            forall|i: int| 0 <= i < self.destinations@.len() ==>
                same_destination(#[trigger] r.destinations@[i], self.destinations@[i]),
    {
        let n = self.destinations.len();
        let mut ds: Vec<DestinationSnapshot> = Vec::with_capacity(n);
        let mut i: usize = 0;
        while i < n
            invariant
                n == self.destinations@.len(),
                i <= n,
                ds@.len() == i,
                forall|j: int| 0 <= j < i ==> same_destination(#[trigger] ds@[j], self.destinations@[j]),
            decreases n - i,
        {
            ds.push(self.destinations[i].clone());
            i = i + 1;
        }
        RoutingSnapshot { destinations: ds, generation: self.generation }
    }
}

/// Every prefix of a sequence of empty slots counts zero.
proof fn lemma_count_zero(s: Seq<Option<usize>>, k: int)
    requires
        0 <= k <= s.len(),
        forall|i: int| 0 <= i < s.len() ==> s[i] is None,
    ensures
        count_occupied(s.take(k)) == 0,
    decreases k,
{
    if k > 0 {
        lemma_count_zero(s, k - 1);
        assert(s.take(k).drop_last() =~= s.take(k - 1));
    }
}

/// Adding a source and then removing it leaves the slots as they were,
/// when the source's index was not routed before.
pub proof fn lemma_add_then_remove_restores(before: Seq<Option<usize>>, index: usize, i: int)
    requires
        DestinationSnapshot::first_empty(before, i),
        !before.contains(Some(index)),
    ensures
        DestinationSnapshot::first_holding(before.update(i, Some(index)), index, i),
        before.update(i, Some(index)).update(i, None) == before,
{
    let after = before.update(i, Some(index));
    assert forall|j: int| 0 <= j < i implies after[j] != Some(index) by {
        assert(before[j] != Some(index));
    }
    assert(after.update(i, None) =~= before);
}

} // verus!
