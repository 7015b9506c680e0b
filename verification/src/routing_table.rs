//! The current routing snapshot and its generation. Each update installs a
//! new snapshot under the next generation; readers that cached a
//! generation can tell whether the snapshot they hold is still current,
//! and a snapshot they hold stays valid after an update.

use vstd::prelude::*;
use std::sync::Arc;
use crate::routing_snapshot::RoutingSnapshot;

verus! {

/// Another handle on a shared value.
///
/// Calls `Arc::clone`, which the standard library documents as making
/// another pointer to the same allocation: the handle reads the same
/// value.
#[verifier::external_body]
pub(crate) fn share<T>(a: &Arc<T>) -> (r: Arc<T>)
    ensures
        r == *a,
{
    Arc::clone(a)
}

/// The current routing snapshot, shared with readers, and its generation.
pub struct RoutingTable {
    current: Arc<RoutingSnapshot>,
    generation: u64,
}

impl RoutingTable {
    /// The current snapshot.
    pub closed spec fn current_snapshot(&self) -> RoutingSnapshot {
        *self.current
    }

    /// The current generation.
    pub closed spec fn generation_spec(&self) -> u64 {
        self.generation
    }

    /// A table with an empty snapshot at generation 0.
    pub fn new() -> (r: Self)
        ensures
            r.generation_spec() == 0,
            r.current_snapshot().destinations@.len() == 0,
    {
        RoutingTable { current: Arc::new(RoutingSnapshot::new()), generation: 0 }
    }

    /// A table holding a snapshot, at the snapshot's generation.
    pub fn with_snapshot(snapshot: RoutingSnapshot) -> (r: Self)
        ensures
            r.generation_spec() == snapshot.generation,
            r.current_snapshot() == snapshot,
    {
        let generation = snapshot.generation;
        RoutingTable { current: Arc::new(snapshot), generation }
    }

    /// A handle on the current snapshot.
    pub fn snapshot(&self) -> (r: Arc<RoutingSnapshot>)
        ensures
            *r == self.current_snapshot(),
    {
        share(&self.current)
    }

    /// The current generation.
    pub fn generation(&self) -> (r: u64)
        ensures
            r == self.generation_spec(),
    {
        self.generation
    }

    /// The current snapshot, where the generation differs from a cached one.
    pub fn snapshot_if_changed(&self, cached_generation: u64) -> (r: Option<Arc<RoutingSnapshot>>)
        ensures
            r is Some <==> self.generation_spec() != cached_generation,
            r matches Some(s) ==> *s == self.current_snapshot(),
    {
        if self.generation != cached_generation {
            Some(self.snapshot())
        } else {
            None
        }
    }

    /// Installs a snapshot under the next generation.
    pub fn update(&mut self, snapshot: RoutingSnapshot)
        requires
            old(self).generation_spec() < u64::MAX,
        ensures
            final(self).generation_spec() == old(self).generation_spec() + 1,
            final(self).current_snapshot() == (RoutingSnapshot {
                generation: final(self).generation_spec(),
                ..snapshot
            }),
    {
        let mut snapshot = snapshot;
        let new_gen = self.generation + 1;
        snapshot.generation = new_gen;
        self.generation = new_gen;
        self.current = Arc::new(snapshot);
    }

    /// Installs, under the next generation, the snapshot that a function
    /// makes from the current one.
    pub fn update_with<F: FnOnce(&RoutingSnapshot) -> RoutingSnapshot>(&mut self, f: F)
        requires
            old(self).generation_spec() < u64::MAX,
            f.requires((&old(self).current_snapshot(),)),
        ensures
            final(self).generation_spec() == old(self).generation_spec() + 1,
            exists|made: RoutingSnapshot|
                f.ensures((&old(self).current_snapshot(),), made) && final(self).current_snapshot() == (
                RoutingSnapshot { generation: final(self).generation_spec(), ..made }),
    {
        let current = self.snapshot();
        let made = f(&*current);
        self.update(made);
    }

    /// Number of destinations in the current snapshot.
    pub fn destination_count(&self) -> (r: usize)
        ensures
            r == self.current_snapshot().destinations@.len(),
    {
        self.current.destinations.len()
    }

    /// Whether the current snapshot has no destinations.
    pub fn is_empty(&self) -> (r: bool)
        ensures
            r == (self.current_snapshot().destinations@.len() == 0),
    {
        self.destination_count() == 0
    }
}

impl Default for RoutingTable {
    fn default() -> (r: Self)
        ensures
            r.generation_spec() == 0,
            r.current_snapshot().destinations@.len() == 0,
    {
        Self::new()
    }
}

/// A snapshot read at a generation is reported changed exactly after an
/// update: an update always moves to a different generation.
pub proof fn lemma_update_changes_generation(before: u64, after: u64)
    requires
        after == before + 1,
    ensures
        after != before,
{
}

} // verus!
