//! Which buffers of a fixed pool of ring buffers are in use. Buffers are
//! known by index; a buffer given back during normal operation is only
//! reused after a grace period of routing generations, so that audio
//! callbacks still holding an older routing snapshot never see it reused.

use vstd::prelude::*;
use crate::buffer::{RingBuffer, is_capacity_for};

verus! {

/// Default number of buffers in a pool.
pub const DEFAULT_POOL_SIZE: usize = 256;

/// Default capacity of each buffer, in samples.
pub const DEFAULT_BUFFER_CAPACITY: usize = 2048;

/// Routing generations to wait before a deferred buffer is reused.
pub const DEFER_FREE_GENERATIONS: u64 = 2;

/// How many entries of `s` are set.
pub open spec fn count_set(s: Seq<bool>) -> nat
    decreases s.len(),
{
    if s.len() == 0 {
        0
    } else {
        count_set(s.drop_last()) + if s.last() {
            1nat
        } else {
            0nat
        }
    }
}

/// At most every entry is set.
pub proof fn lemma_count_set_bound(s: Seq<bool>)
    ensures
        count_set(s) <= s.len(),
    decreases s.len(),
{
    if s.len() > 0 {
        lemma_count_set_bound(s.drop_last());
    }
}

/// Setting an unset entry adds one; clearing a set entry takes one away.
pub proof fn lemma_count_set_update(s: Seq<bool>, i: int, v: bool)
    requires
        0 <= i < s.len(),
    ensures
        count_set(s.update(i, v)) == count_set(s) - (if s[i] {
            1int
        } else {
            0int
        }) + (if v {
            1int
        } else {
            0int
        }),
    decreases s.len(),
{
    let t = s.update(i, v);
    if i == s.len() - 1 {
        assert(t.drop_last() =~= s.drop_last());
    } else {
        assert(t.drop_last() =~= s.drop_last().update(i, v));
        lemma_count_set_update(s.drop_last(), i, v);
    }
}

/// A sequence with every entry set counts them all.
pub proof fn lemma_count_all_set(s: Seq<bool>)
    requires
        forall|i: int| 0 <= i < s.len() ==> s[i],
    ensures
        count_set(s) == s.len(),
    decreases s.len(),
{
    if s.len() > 0 {
        lemma_count_all_set(s.drop_last());
    }
}

/// A sequence with no entry set counts none.
pub proof fn lemma_count_none_set(s: Seq<bool>)
    requires
        forall|i: int| 0 <= i < s.len() ==> !s[i],
    ensures
        count_set(s) == 0,
    decreases s.len(),
{
    if s.len() > 0 {
        lemma_count_none_set(s.drop_last());
    }
}

/// Whether a deferred buffer may be reused at a generation: only once more
/// than the grace period has passed since it was given back.
pub open spec fn grace_over(freed_at: u64, generation: u64) -> bool {
    generation > freed_at + DEFER_FREE_GENERATIONS
}

/// How many entries at the front of a queue may be reused at a generation.
pub open spec fn ready_prefix(q: Seq<(usize, u64)>, generation: u64) -> nat
    decreases q.len(),
{
    if q.len() > 0 && grace_over(q[0].1, generation) {
        1 + ready_prefix(q.drop_first(), generation)
    } else {
        0
    }
}

/// The ready prefix is part of the queue, and the entry after it (if any)
/// is not ready.
pub proof fn lemma_ready_prefix(q: Seq<(usize, u64)>, generation: u64)
    ensures
        ready_prefix(q, generation) <= q.len(),
        forall|j: int| 0 <= j < ready_prefix(q, generation) ==> grace_over(#[trigger] q[j].1, generation),
        ready_prefix(q, generation) < q.len() ==> !grace_over(q[ready_prefix(q, generation) as int].1, generation),
    decreases q.len(),
{
    if q.len() > 0 && grace_over(q[0].1, generation) {
        lemma_ready_prefix(q.drop_first(), generation);
        assert forall|j: int| 0 <= j < ready_prefix(q, generation) implies grace_over(#[trigger] q[j].1, generation) by {
            if j > 0 {
                assert(q[j] == q.drop_first()[j - 1]);
            }
        }
    }
}

/// A fixed set of ring buffers, which of them are in use, and which are
/// waiting out their grace period.
pub struct RingBufferPool {
    buffers: Vec<RingBuffer>,
    free: Vec<bool>,
    free_count: usize,
    pending: Vec<(usize, u64)>,
    buffer_capacity: usize,
}

impl RingBufferPool {
    /// For each buffer, whether it is free.
    pub closed spec fn free_flags(&self) -> Seq<bool> {
        self.free@
    }

    /// Buffers given back and waiting, with the generation they were given
    /// back at, oldest first.
    pub closed spec fn pending_queue(&self) -> Seq<(usize, u64)> {
        self.pending@
    }

    /// Capacity of each buffer.
    pub closed spec fn capacity(&self) -> usize {
        self.buffer_capacity
    }

    /// The buffers, by index.
    pub closed spec fn buffers(&self) -> Seq<RingBuffer> {
        self.buffers@
    }

    /// Whether the free count matches the flags, and every buffer is a
    /// well-formed ring of the pool's capacity rounded up to a power of two.
    pub closed spec fn wf(&self) -> bool {
        &&& self.free_count == count_set(self.free@)
        &&& self.free@.len() > 0
        &&& self.buffers@.len() == self.free@.len()
        &&& forall|j: int| 0 <= j < self.pending@.len() ==> (#[trigger] self.pending@[j]).0 < self.free@.len()
        &&& forall|i: int|
            0 <= i < self.buffers@.len() ==> (#[trigger] self.buffers@[i]).wf() && is_capacity_for(
                self.buffers@[i].cap_log2(),
                self.buffer_capacity as nat,
            )
    }

    /// A well-formed pool has one well-formed buffer per flag.
    pub proof fn lemma_buffers_match_flags(&self)
        requires
            self.wf(),
        ensures
            self.buffers().len() == self.free_flags().len(),
            forall|i: int| 0 <= i < self.buffers().len() ==> (#[trigger] self.buffers()[i]).wf(),
    {
    }

    /// Creates a pool of `pool_size` buffers of `buffer_capacity` samples,
    /// all free.
    pub fn new(pool_size: usize, buffer_capacity: usize) -> (r: Self)
        requires
            pool_size > 0,
            buffer_capacity <= usize::MAX / 2 + 1,
        ensures
            r.wf(),
            r.free_flags().len() == pool_size,
            forall|i: int| 0 <= i < pool_size ==> (#[trigger] r.buffers()[i])@ == Seq::<u32>::empty(),
            forall|i: int| 0 <= i < pool_size ==> #[trigger] r.free_flags()[i],
            r.pending_queue() == Seq::<(usize, u64)>::empty(),
            r.capacity() == buffer_capacity,
    {
        let mut free: Vec<bool> = Vec::new();
        let mut buffers: Vec<RingBuffer> = Vec::new();
        let mut i: usize = 0;
        while i < pool_size
            invariant
                i <= pool_size,
                free@.len() == i,
                buffers@.len() == i,
                buffer_capacity <= usize::MAX / 2 + 1,
                forall|j: int| 0 <= j < i ==> #[trigger] free@[j],
                forall|j: int|
                    0 <= j < i ==> (#[trigger] buffers@[j]).wf() && is_capacity_for(
                        buffers@[j].cap_log2(),
                        buffer_capacity as nat,
                    ) && buffers@[j]@ == Seq::<u32>::empty(),
            decreases pool_size - i,
        {
            free.push(true);
            buffers.push(RingBuffer::new(buffer_capacity));
            i = i + 1;
        }
        proof {
            lemma_count_all_set(free@);
        }
        RingBufferPool { buffers, free, free_count: pool_size, pending: Vec::new(), buffer_capacity }
    }

    /// Creates a pool of the default size and capacity.
    pub fn with_defaults() -> (r: Self)
        ensures
            r.wf(),
            r.free_flags().len() == DEFAULT_POOL_SIZE,
            forall|i: int| 0 <= i < DEFAULT_POOL_SIZE ==> #[trigger] r.free_flags()[i],
            r.pending_queue() == Seq::<(usize, u64)>::empty(),
            r.capacity() == DEFAULT_BUFFER_CAPACITY,
    {
        Self::new(DEFAULT_POOL_SIZE, DEFAULT_BUFFER_CAPACITY)
    }

    /// Number of buffers in the pool.
    pub fn pool_size(&self) -> (r: usize)
        ensures
            r == self.free_flags().len(),
    {
        self.free.len()
    }

    /// Capacity of each buffer, in samples.
    pub fn buffer_capacity(&self) -> (r: usize)
        ensures
            r == self.capacity(),
    {
        self.buffer_capacity
    }

    /// Number of buffers in use.
    pub fn allocated_count(&self) -> (r: usize)
        requires
            self.wf(),
        ensures
            r == self.free_flags().len() - count_set(self.free_flags()),
    {
        proof {
            lemma_count_set_bound(self.free@);
        }
        self.free.len() - self.free_count
    }

    /// Number of free buffers.
    pub fn free_count(&self) -> (r: usize)
        requires
            self.wf(),
        ensures
            r == count_set(self.free_flags()),
    {
        self.free_count
    }

    /// Whether no buffer is free.
    pub fn is_exhausted(&self) -> (r: bool)
        requires
            self.wf(),
        ensures
            r == (count_set(self.free_flags()) == 0),
    {
        self.free_count == 0
    }

    /// Takes a free buffer into use and gives its index; None where every
    /// buffer is in use.
    pub fn allocate(&mut self) -> (r: Option<usize>)
        requires
            old(self).wf(),
        ensures
            final(self).wf(),
            r is None <==> count_set(old(self).free_flags()) == 0,
            r is None ==> final(self).free_flags() == old(self).free_flags(),
            r matches Some(i) ==> i < old(self).free_flags().len() && old(self).free_flags()[i as int]
                && final(self).free_flags() == old(self).free_flags().update(i as int, false),
            r is None ==> final(self).buffers() == old(self).buffers(),
            r matches Some(i) ==> final(self).buffers().len() == old(self).buffers().len() && final(self).buffers()[i as int]@
                == Seq::<u32>::empty() && final(self).buffers()[i as int].cap() == old(self).buffers()[i as int].cap()
                && forall|j: int|
                0 <= j < old(self).buffers().len() && j != i ==> #[trigger] final(self).buffers()[j] == old(self).buffers()[j],
            final(self).pending_queue() == old(self).pending_queue(),
            final(self).capacity() == old(self).capacity(),
    {
        let mut i: usize = 0;
        while i < self.free.len()
            invariant
                self.wf(),
                self.buffers@ == old(self).buffers@,
                self.free@ == old(self).free@,
                self.pending@ == old(self).pending@,
                self.buffer_capacity == old(self).buffer_capacity,
                i <= self.free@.len(),
                forall|j: int| 0 <= j < i ==> !#[trigger] self.free@[j],
            decreases self.free.len() - i,
        {
            if self.free[i] {
                proof {
                    lemma_count_set_update(self.free@, i as int, false);
                    lemma_count_set_bound(self.free@);
                }
                self.free.set(i, false);
                self.free_count = self.free_count - 1;
                self.buffers[i].clear();
                return Some(i);
            }
            i = i + 1;
        }
        proof {
            lemma_count_none_set(self.free@);
        }
        None
    }

    /// Gives a buffer back at once (for shutdown, when no audio callback
    /// runs). Refused for an index outside the pool and for a free buffer.
    pub fn free(&mut self, index: usize) -> (r: bool)
        requires
            old(self).wf(),
        ensures
            final(self).wf(),
            r == (index < old(self).free_flags().len() && !old(self).free_flags()[index as int]),
            r ==> final(self).free_flags() == old(self).free_flags().update(index as int, true),
            !r ==> final(self).free_flags() == old(self).free_flags(),
            final(self).pending_queue() == old(self).pending_queue(),
            final(self).capacity() == old(self).capacity(),
            final(self).buffers() == old(self).buffers(),
    {
        if index >= self.free.len() {
            return false;
        }
        if self.free[index] {
            return false;
        }
        self.mark_free(index);
        true
    }

    fn mark_free(&mut self, index: usize)
        requires
            old(self).wf(),
            index < old(self).free@.len(),
        ensures
            final(self).wf(),
            final(self).free@ == old(self).free@.update(index as int, true),
            final(self).pending@ == old(self).pending@,
            final(self).buffer_capacity == old(self).buffer_capacity,
            final(self).buffers@ == old(self).buffers@,
    {
        if !self.free[index] {
            proof {
                lemma_count_set_update(self.free@, index as int, true);
                lemma_count_set_bound(self.free@.update(index as int, true));
                assert(self.free@.len() == self.free.len());
            }
            self.free.set(index, true);
            self.free_count = self.free_count + 1;
        } else {
            assert(self.free@.update(index as int, true) =~= self.free@);
        }
    }

    /// Queues a buffer in use to be given back once the grace period after
    /// `current_generation` is over. Refused for an index outside the pool
    /// and for a free buffer.
    pub fn defer_free(&mut self, index: usize, current_generation: u64) -> (r: bool)
        requires
            old(self).wf(),
        ensures
            final(self).wf(),
            r == (index < old(self).free_flags().len() && !old(self).free_flags()[index as int]),
            r ==> final(self).pending_queue() == old(self).pending_queue().push((index, current_generation)),
            !r ==> final(self).pending_queue() == old(self).pending_queue(),
            final(self).free_flags() == old(self).free_flags(),
            final(self).capacity() == old(self).capacity(),
            final(self).buffers() == old(self).buffers(),
    {
        if index >= self.free.len() {
            return false;
        }
        if self.free[index] {
            return false;
        }
        self.pending.push((index, current_generation));
        true
    }

    /// Gives back, oldest first, the queued buffers whose grace period is
    /// over at `current_generation`, stopping at the first that is not;
    /// returns how many were given back.
    pub fn process_pending_frees(&mut self, current_generation: u64) -> (r: usize)
        requires
            old(self).wf(),
        ensures
            final(self).wf(),
            r <= old(self).pending_queue().len(),
            r == ready_prefix(old(self).pending_queue(), current_generation),
            final(self).pending_queue() == old(self).pending_queue().skip(r as int),
            final(self).free_flags().len() == old(self).free_flags().len(),
            forall|i: int|
                0 <= i < final(self).free_flags().len() ==> #[trigger] final(self).free_flags()[i] == (old(self).free_flags()[i] || exists|j: int|
                    0 <= j < r && old(self).pending_queue()[j].0 == i),
            final(self).capacity() == old(self).capacity(),
            final(self).buffers() == old(self).buffers(),
    {
        let ghost q = self.pending@;
        assert forall|j: int| 0 <= j < q.len() implies (#[trigger] q[j]).0 < self.free@.len() by {
            assert(old(self).pending_queue()[j] == q[j]);
        }
        assert(q.skip(0) =~= q);
        assert(q.len() == self.pending.len());
        let mut freed: usize = 0;
        while self.pending.len() > 0
            invariant_except_break
                self.wf(),
                q.len() <= usize::MAX,
                freed <= q.len(),
                self.pending@ == q.skip(freed as int),
                ready_prefix(q, current_generation) == freed + ready_prefix(q.skip(freed as int), current_generation),
                forall|j: int| 0 <= j < q.len() ==> (#[trigger] q[j]).0 < self.free@.len(),
                self.free@.len() == old(self).free@.len(),
                forall|i: int|
                    0 <= i < self.free@.len() ==> #[trigger] self.free@[i] == (old(self).free@[i] || exists|j: int|
                        0 <= j < freed && q[j].0 == i),
                self.buffer_capacity == old(self).buffer_capacity,
                self.buffers@ == old(self).buffers@,
            ensures
                self.wf(),
                freed <= q.len(),
                freed == ready_prefix(q, current_generation),
                self.pending@ == q.skip(freed as int),
                self.free@.len() == old(self).free@.len(),
                forall|i: int|
                    0 <= i < self.free@.len() ==> #[trigger] self.free@[i] == (old(self).free@[i] || exists|j: int|
                        0 <= j < freed && q[j].0 == i),
                self.buffer_capacity == old(self).buffer_capacity,
                self.buffers@ == old(self).buffers@,
            decreases self.pending.len(),
        {
            let (index, freed_at) = self.pending[0];
            assert(q[freed as int] == self.pending@[0]);
            let ready = current_generation > freed_at && current_generation - freed_at > DEFER_FREE_GENERATIONS;
            if !ready {
                assert(ready_prefix(q.skip(freed as int), current_generation) == 0);
                break;
            }
            proof {
                assert(q.skip(freed as int).drop_first() =~= q.skip(freed + 1));
            }
            self.pending.remove(0);
            let ghost before = self.free@;
            self.mark_free(index);
            proof {
                assert(self.pending@ =~= q.skip(freed + 1));
                assert forall|i: int| 0 <= i < self.free@.len() implies #[trigger] self.free@[i] == (old(self).free@[i]
                    || exists|j: int| 0 <= j < freed + 1 && q[j].0 == i) by {
                    if i == index {
                        assert(q[freed as int].0 == i);
                    } else {
                        assert(self.free@[i] == before[i]);
                        if exists|j: int| 0 <= j < freed + 1 && q[j].0 == i {
                            let j = choose|j: int| 0 <= j < freed + 1 && q[j].0 == i;
                            assert(j != freed);
                        }
                    }
                }
            }
            freed = freed + 1;
        }
        freed
    }

    /// The buffer at `index`, or None outside the pool. Whether it is in
    /// use is not checked.
    pub fn get(&self, index: usize) -> (r: Option<&RingBuffer>)
        requires
            self.wf(),
        ensures
            r is Some <==> index < self.buffers().len(),
            r matches Some(b) ==> *b == self.buffers()[index as int],
    {
        if index < self.buffers.len() {
            Some(&self.buffers[index])
        } else {
            None
        }
    }

    /// The buffer at `index`, to write into or read from. Whether it is in
    /// use is not checked.
    pub fn buffer_mut(&mut self, index: usize) -> (r: &mut RingBuffer)
        requires
            old(self).wf(),
            index < old(self).buffers().len(),
        ensures
            *r == old(self).buffers()[index as int],
            final(self).buffers() == old(self).buffers().update(index as int, *final(r)),
            final(self).free_flags() == old(self).free_flags(),
            final(self).pending_queue() == old(self).pending_queue(),
            final(self).capacity() == old(self).capacity(),
            final(r).wf() && final(r).cap_log2() == old(self).buffers()[index as int].cap_log2() ==> final(self).wf(),
    {
        &mut self.buffers[index]
    }

    /// Number of buffers waiting out their grace period.
    pub fn pending_free_count(&self) -> (r: usize)
        ensures
            r == self.pending_queue().len(),
    {
        self.pending.len()
    }

    /// Whether a buffer is in use (false outside the pool).
    pub fn is_allocated(&self, index: usize) -> (r: bool)
        ensures
            r == (index < self.free_flags().len() && !self.free_flags()[index as int]),
    {
        index < self.free.len() && !self.free[index]
    }

    /// The indices of the buffers in use, in increasing order.
    pub fn allocated_indices(&self) -> (r: Vec<usize>)
        ensures
            forall|j: int| 0 <= j < r@.len() ==> (#[trigger] r@[j]) < self.free_flags().len() && !self.free_flags()[r@[j] as int],
            forall|a: int, b: int| 0 <= a < b < r@.len() ==> r@[a] < r@[b],
            forall|i: int| 0 <= i < self.free_flags().len() && !#[trigger] self.free_flags()[i] ==> r@.contains(i as usize),
    {
        let mut out: Vec<usize> = Vec::new();
        let mut i: usize = 0;
        while i < self.free.len()
            invariant
                i <= self.free@.len(),
                forall|j: int| 0 <= j < out@.len() ==> (#[trigger] out@[j]) < i && !self.free@[out@[j] as int],
                forall|a: int, b: int| 0 <= a < b < out@.len() ==> out@[a] < out@[b],
                forall|k: int| 0 <= k < i && !#[trigger] self.free@[k] ==> out@.contains(k as usize),
            decreases self.free.len() - i,
        {
            if !self.free[i] {
                let ghost before = out@;
                out.push(i);
                proof {
                    assert forall|k: int| 0 <= k < i + 1 && !#[trigger] self.free@[k] implies out@.contains(k as usize) by {
                        if k == i {
                            assert(out@[out@.len() - 1] == i);
                        } else {
                            let j = choose|j: int| 0 <= j < before.len() && before[j] == k as usize;
                            assert(out@[j] == before[j]);
                        }
                    }
                }
            }
            i = i + 1;
        }
        out
    }

    /// Gives every buffer back at once and drops the queue (for shutdown
    /// or reset, when no audio callback runs).
    pub fn free_all(&mut self)
        requires
            old(self).wf(),
        ensures
            final(self).wf(),
            final(self).free_flags().len() == old(self).free_flags().len(),
            forall|i: int| 0 <= i < final(self).free_flags().len() ==> #[trigger] final(self).free_flags()[i],
            final(self).pending_queue() == Seq::<(usize, u64)>::empty(),
            final(self).capacity() == old(self).capacity(),
            final(self).buffers() == old(self).buffers(),
    {
        self.pending.clear();
        let n = self.free.len();
        let mut i: usize = 0;
        while i < n
            invariant
                n == self.free@.len(),
                n > 0,
                i <= n,
                self.pending@ == Seq::<(usize, u64)>::empty(),
                self.buffer_capacity == old(self).buffer_capacity,
                self.buffers@ == old(self).buffers@,
                self.buffers@.len() == n,
                forall|j: int| 0 <= j < i ==> #[trigger] self.free@[j],
            decreases n - i,
        {
            self.free.set(i, true);
            i = i + 1;
        }
        proof {
            lemma_count_all_set(self.free@);
        }
        self.free_count = n;
    }
}

impl Default for RingBufferPool {
    fn default() -> (r: Self)
        ensures
            r.wf(),
            r.free_flags().len() == DEFAULT_POOL_SIZE,
            forall|i: int| 0 <= i < DEFAULT_POOL_SIZE ==> #[trigger] r.free_flags()[i],
            r.pending_queue() == Seq::<(usize, u64)>::empty(),
            r.capacity() == DEFAULT_BUFFER_CAPACITY,
    {
        Self::with_defaults()
    }
}


/// Taking a free buffer into use and giving it back leaves the pool as it
/// was.
pub proof fn law_allocate_then_free(flags: Seq<bool>, i: int)
    requires
        0 <= i < flags.len(),
        flags[i],
    ensures
        flags.update(i, false).update(i, true) == flags,
        count_set(flags.update(i, false)) == count_set(flags) - 1,
{
    assert(flags.update(i, false).update(i, true) =~= flags);
    lemma_count_set_update(flags, i, false);
}

/// Once the grace period of every queued buffer is over, all of them are
/// given back.
pub proof fn law_all_freed_after_grace(q: Seq<(usize, u64)>, generation: u64)
    requires
        forall|j: int| 0 <= j < q.len() ==> grace_over(#[trigger] q[j].1, generation),
    ensures
        ready_prefix(q, generation) == q.len(),
    decreases q.len(),
{
    if q.len() > 0 {
        assert forall|j: int| 0 <= j < q.drop_first().len() implies grace_over(#[trigger] q.drop_first()[j].1, generation) by {
            assert(q.drop_first()[j] == q[j + 1]);
        }
        law_all_freed_after_grace(q.drop_first(), generation);
        assert(grace_over(q[0].1, generation));
    }
}

/// A buffer given back at a generation is not reused before the grace
/// period is over.
pub proof fn law_not_freed_within_grace(q: Seq<(usize, u64)>, generation: u64)
    requires
        q.len() > 0,
        generation <= q[0].1 + DEFER_FREE_GENERATIONS,
    ensures
        ready_prefix(q, generation) == 0,
{
}
} // verus!
