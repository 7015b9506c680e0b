//! Single-producer single-consumer ring buffer of audio samples.
//!
//! Samples travel as the IEEE-754 bit patterns of `f32` values: the buffer
//! moves them and never computes with them. Its capacity is a power of two
//! and its read and write positions are counters that wrap around at the
//! range of `usize`, so the number of samples waiting is their wrapping
//! difference.

use vstd::prelude::*;
use vstd::arithmetic::power2::{pow2, lemma_pow2_adds, lemma_pow2_pos, lemma_pow2_unfold, lemma2_to64, lemma_pow2_strictly_increases};
use vstd::arithmetic::div_mod::{lemma_mod_equivalence, lemma_mod_multiples_basic, lemma_small_mod};

verus! {

/// The number of distinct `usize` values: positions wrap around at it.
pub open spec fn position_range() -> int {
    usize::MAX as int + 1
}

/// How many of `offered` samples a ring of capacity `cap` that holds `q`
/// takes in: as many as there is room for.
pub open spec fn write_count(q: Seq<u32>, cap: nat, offered: nat) -> nat {
    if offered + q.len() <= cap {
        offered
    } else if q.len() <= cap {
        (cap - q.len()) as nat
    } else {
        0
    }
}

/// The waiting samples after `samples` are offered: those taken in join
/// the end of the queue, in order.
pub open spec fn after_write(q: Seq<u32>, cap: nat, samples: Seq<u32>) -> Seq<u32> {
    q + samples.take(write_count(q, cap, samples.len()) as int)
}

/// How many samples a read into room for `wanted` takes out of `q`.
pub open spec fn read_count(q: Seq<u32>, wanted: nat) -> nat {
    if wanted <= q.len() {
        wanted
    } else {
        q.len()
    }
}

/// The smallest power of two that is at least `n` (and at least one),
/// given by its exponent `k`.
pub open spec fn is_capacity_for(k: nat, n: nat) -> bool {
    &&& n <= pow2(k)
    &&& (k == 0 || pow2((k - 1) as nat) < n)
}

/// A power of two that `usize` can hold divides the range of positions.
pub proof fn lemma_pow2_divides_range(k: nat)
    requires
        pow2(k) <= usize::MAX,
    ensures
        position_range() % (pow2(k) as int) == 0,
{
    lemma2_to64();
    lemma_pow2_pos(k);
    let w: nat = if usize::MAX == 0xffff_ffff {
        32
    } else {
        64
    };
    assert(position_range() == pow2(w));
    if k >= w {
        if k > w {
            lemma_pow2_strictly_increases(w, k);
        }
        assert(false);
    }
    lemma_pow2_adds((w - k) as nat, k);
    lemma_mod_multiples_basic(pow2((w - k) as nat) as int, pow2(k) as int);
}

/// Moving a position by the whole range keeps its slot in the ring.
pub proof fn lemma_slot_wraps(x: int, cap: int)
    requires
        cap > 0,
        position_range() % cap == 0,
    ensures
        (x + position_range()) % cap == x % cap,
        (x - position_range()) % cap == x % cap,
{
    lemma_mod_equivalence(x + position_range(), x, cap);
    lemma_mod_equivalence(x - position_range(), x, cap);
    lemma_mod_equivalence(0, position_range(), cap);
    lemma_mod_equivalence(0, -position_range(), cap);
    assert((x + position_range()) - x == position_range());
    assert((x - position_range()) - x == 0 - position_range());
    assert((0 - (-position_range())) == position_range());
}

/// Positions that agree in the ring agree after the same step.
pub proof fn lemma_slot_shift(a: int, b: int, i: int, cap: int)
    requires
        cap > 0,
        a % cap == b % cap,
    ensures
        (a + i) % cap == (b + i) % cap,
{
    lemma_mod_equivalence(a, b, cap);
    lemma_mod_equivalence(a + i, b + i, cap);
    assert((a + i) - (b + i) == a - b);
}

/// Two positions less than a whole ring apart fall in different slots.
pub proof fn lemma_slots_distinct(r: int, a: int, b: int, cap: int)
    requires
        cap > 0,
        0 <= a < b < a + cap,
    ensures
        (r + a) % cap != (r + b) % cap,
{
    lemma_mod_equivalence(r + b, r + a, cap);
    assert((r + b) - (r + a) == b - a);
    lemma_small_mod((b - a) as nat, cap as nat);
}

/// Samples come out in the order they went in: written into an empty ring
/// with room for all of them, every sample is taken in, and a read then
/// hands back the oldest ones first and leaves the rest waiting.
pub proof fn law_write_then_read_in_order(cap: nat, samples: Seq<u32>, wanted: nat)
    requires
        samples.len() <= cap,
    ensures
        write_count(Seq::empty(), cap, samples.len()) == samples.len(),
        after_write(Seq::empty(), cap, samples) == samples,
        ({
            let n = read_count(samples, wanted) as int;
            &&& n == if wanted <= samples.len() {
                wanted as int
            } else {
                samples.len() as int
            }
            &&& after_write(Seq::empty(), cap, samples).take(n) == samples.take(n)
            &&& after_write(Seq::empty(), cap, samples).skip(n) == samples.skip(n)
        }),
{
    assert(Seq::<u32>::empty() + samples.take(samples.len() as int) =~= samples);
}

/// A ring never holds more than its capacity, and a write that offers more
/// than the room left fills it exactly.
pub proof fn law_write_never_overfills(q: Seq<u32>, cap: nat, samples: Seq<u32>)
    requires
        q.len() <= cap,
    ensures
        after_write(q, cap, samples).len() <= cap,
        samples.len() + q.len() >= cap ==> after_write(q, cap, samples).len() == cap,
        samples.len() + q.len() < cap ==> after_write(q, cap, samples).len() == q.len() + samples.len(),
{
}

/// A lock-free single-producer single-consumer ring buffer.
///
/// Its view is the queue of samples waiting to be read, oldest first.
pub struct RingBuffer {
    data: Vec<u32>,
    capacity: usize,
    read_pos: usize,
    write_pos: usize,
    queue: Ghost<Seq<u32>>,
    log2: Ghost<nat>,
}

impl View for RingBuffer {
    type V = Seq<u32>;

    closed spec fn view(&self) -> Seq<u32> {
        self.queue@
    }
}

impl RingBuffer {
    /// The number of samples the ring holds at most.
    pub closed spec fn cap(&self) -> nat {
        self.capacity as nat
    }

    /// The exponent of the capacity: the capacity is two to this power.
    pub closed spec fn cap_log2(&self) -> nat {
        self.log2@
    }

    /// The storage holds exactly the queue, from the read position on,
    /// and the positions are as far apart as the queue is long.
    pub closed spec fn wf(&self) -> bool {
        &&& self.capacity as nat == pow2(self.log2@)
        &&& position_range() % (self.capacity as int) == 0
        &&& self.data@.len() == self.capacity
        &&& self.queue@.len() <= self.capacity
        &&& self.queue@.len() == self.write_pos.wrapping_sub(self.read_pos)
        &&& forall|i: int|
            0 <= i < self.queue@.len() ==> #[trigger] self.queue@[i] == self.data@[(self.read_pos + i) % (
            self.capacity as int)]
    }

    /// Creates an empty ring whose capacity is `capacity` rounded up to the
    /// next power of two.
    pub fn new(capacity: usize) -> (r: Self)
        requires
            capacity <= usize::MAX / 2 + 1,
        ensures
            r.wf(),
            r@ == Seq::<u32>::empty(),
            r.cap() == pow2(r.cap_log2()),
            is_capacity_for(r.cap_log2(), capacity as nat),
    {
        let mut size: usize = 1;
        let ghost mut k: nat = 0;
        proof {
            lemma2_to64();
        }
        while size < capacity
            invariant
                size == pow2(k),
                size >= 1,
                capacity <= usize::MAX / 2 + 1,
                k == 0 || pow2((k - 1) as nat) < capacity,
            decreases usize::MAX - size,
        {
            proof {
                lemma_pow2_unfold(k + 1);
            }
            size = size * 2;
            proof {
                k = k + 1;
            }
        }
        let mut data: Vec<u32> = Vec::new();
        while data.len() < size
            invariant
                data.len() <= size,
            decreases size - data.len(),
        {
            data.push(0);
        }
        proof {
            lemma_pow2_divides_range(k);
        }
        RingBuffer {
            data,
            capacity: size,
            read_pos: 0,
            write_pos: 0,
            queue: Ghost(Seq::empty()),
            log2: Ghost(k),
        }
    }

    /// The number of samples waiting to be read.
    pub fn available(&self) -> (r: usize)
        requires
            self.wf(),
        ensures
            r == self@.len(),
    {
        self.write_pos.wrapping_sub(self.read_pos)
    }

    /// The number of samples the ring holds at most.
    pub fn capacity(&self) -> (r: usize)
        ensures
            r == self.cap(),
    {
        self.capacity
    }

    /// The room left for samples.
    pub fn free(&self) -> (r: usize)
        requires
            self.wf(),
        ensures
            r == self.cap() - self@.len(),
    {
        self.capacity - self.available()
    }

    /// Writes samples to the buffer, as many as there is room for, and
    /// returns how many it took. They join the end of the queue in order.
    pub fn write(&mut self, samples: &[u32]) -> (r: usize)
        requires
            old(self).wf(),
        ensures
            final(self).wf(),
            final(self).cap() == old(self).cap(),
            final(self).cap_log2() == old(self).cap_log2(),
            r == write_count(old(self)@, old(self).cap(), samples@.len()),
            final(self)@ == after_write(old(self)@, old(self).cap(), samples@),
    {
        let free = self.free();
        let to_write: usize = if samples.len() < free {
            samples.len()
        } else {
            free
        };
        if to_write == 0 {
            proof {
                assert(self@ + samples@.take(0) =~= self@);
            }
            return 0;
        }
        let write_pos = self.write_pos;
        let ghost q = self.queue@;
        let ghost cap = self.capacity as int;
        let ghost rp = self.read_pos as int;
        let ghost lg = self.log2@;
        proof {
            if self.write_pos - self.read_pos < 0 {
                lemma_slot_wraps(self.write_pos as int, cap);
            }
            assert((rp + q.len()) % cap == (write_pos as int) % cap);
        }
        let mut i: usize = 0;
        while i < to_write
            invariant
                self.capacity == cap,
                self.read_pos == rp,
                self.write_pos == write_pos,
                self.queue@ == q,
                self.log2@ == lg,
                self.capacity as nat == pow2(self.log2@),
                self.data@.len() == cap,
                cap > 0,
                position_range() % cap == 0,
                i <= to_write,
                to_write + q.len() <= cap,
                to_write <= samples@.len(),
                q.len() == self.write_pos.wrapping_sub(self.read_pos),
                (rp + q.len()) % cap == (write_pos as int) % cap,
                forall|j: int| 0 <= j < q.len() ==> #[trigger] q[j] == self.data@[(rp + j) % cap],
                forall|j: int| 0 <= j < i ==> self.data@[(rp + q.len() + j) % cap] == #[trigger] samples@[j],
            decreases to_write - i,
        {
            let idx = write_pos.wrapping_add(i) % self.capacity;
            proof {
                if write_pos + i > usize::MAX {
                    lemma_slot_wraps((write_pos + i) as int, cap);
                }
                lemma_slot_shift(write_pos as int, rp + q.len(), i as int, cap);
                assert(idx == (rp + q.len() + i) % cap);
            }
            self.data[idx] = samples[i];
            proof {
                assert forall|j: int| 0 <= j < q.len() implies #[trigger] q[j] == self.data@[(rp + j) % cap] by {
                    lemma_slots_distinct(rp, j, q.len() + i, cap);
                }
                assert forall|j: int| 0 <= j < i + 1 implies self.data@[(rp + q.len() + j) % cap]
                    == #[trigger] samples@[j] by {
                    if j < i {
                        lemma_slots_distinct(rp, q.len() + j, q.len() + i, cap);
                    }
                }
            }
            i = i + 1;
        }
        self.write_pos = write_pos.wrapping_add(to_write);
        self.queue = Ghost(q + samples@.take(to_write as int));
        proof {
            let nq = self.queue@;
            assert forall|j: int| 0 <= j < nq.len() implies #[trigger] nq[j] == self.data@[(rp + j) % cap] by {
                if j >= q.len() {
                    assert(nq[j] == samples@[j - q.len()]);
                    assert(rp + q.len() + (j - q.len()) == rp + j);
                }
            }
        }
        to_write
    }

    /// Reads waiting samples into `output`, as many as are waiting and fit,
    /// oldest first, and returns how many it read. The rest of `output` is
    /// left as it was.
    pub fn read(&mut self, output: &mut [u32]) -> (r: usize)
        requires
            old(self).wf(),
        ensures
            final(self).wf(),
            final(self).cap() == old(self).cap(),
            final(self).cap_log2() == old(self).cap_log2(),
            r == read_count(old(self)@, old(output)@.len()),
            final(output)@.len() == old(output)@.len(),
            final(output)@.take(r as int) == old(self)@.take(r as int),
            final(output)@.skip(r as int) == old(output)@.skip(r as int),
            final(self)@ == old(self)@.skip(r as int),
    {
        let available = self.available();
        let to_read: usize = if output.len() < available {
            output.len()
        } else {
            available
        };
        if to_read == 0 {
            proof {
                assert(self@.skip(0) =~= self@);
                assert(output@.take(0) =~= self@.take(0));
                assert(output@.skip(0) =~= output@);
            }
            return 0;
        }
        let read_pos = self.read_pos;
        let ghost q = self.queue@;
        let ghost cap = self.capacity as int;
        let ghost rp = self.read_pos as int;
        let ghost out0 = output@;
        let mut i: usize = 0;
        while i < to_read
            invariant
                self.capacity == cap,
                self.read_pos == rp,
                read_pos == rp,
                self.queue@ == q,
                self.data@.len() == cap,
                cap > 0,
                position_range() % cap == 0,
                i <= to_read,
                to_read <= q.len(),
                to_read <= out0.len(),
                output@.len() == out0.len(),
                forall|j: int| 0 <= j < q.len() ==> #[trigger] q[j] == self.data@[(rp + j) % cap],
                forall|j: int| 0 <= j < i ==> #[trigger] output@[j] == q[j],
                forall|j: int| i <= j < out0.len() ==> #[trigger] output@[j] == out0[j],
            decreases to_read - i,
        {
            let idx = read_pos.wrapping_add(i) % self.capacity;
            proof {
                if read_pos + i > usize::MAX {
                    lemma_slot_wraps((read_pos + i) as int, cap);
                }
                assert(idx == (rp + i) % cap);
                assert(q[i as int] == self.data@[(rp + i) % cap]);
            }
            output[i] = self.data[idx];
            i = i + 1;
        }
        self.read_pos = read_pos.wrapping_add(to_read);
        self.queue = Ghost(q.skip(to_read as int));
        proof {
            let nq = self.queue@;
            let nr = self.read_pos as int;
            assert forall|j: int| 0 <= j < nq.len() implies #[trigger] nq[j] == self.data@[(nr + j) % cap] by {
                assert(nq[j] == q[to_read + j]);
                assert(q[to_read + j] == self.data@[(rp + (to_read + j)) % cap]);
                if rp + to_read > usize::MAX {
                    lemma_slot_wraps(rp + to_read + j, cap);
                    assert(nr + j == rp + to_read + j - position_range());
                } else {
                    assert(nr + j == rp + (to_read + j));
                }
            }
            assert(output@.take(to_read as int) =~= q.take(to_read as int));
            assert(output@.skip(to_read as int) =~= out0.skip(to_read as int));
        }
        to_read
    }

    /// Empties the buffer.
    pub fn clear(&mut self)
        requires
            old(self).wf(),
        ensures
            final(self).wf(),
            final(self).cap() == old(self).cap(),
            final(self).cap_log2() == old(self).cap_log2(),
            final(self)@ == Seq::<u32>::empty(),
    {
        self.read_pos = 0;
        self.write_pos = 0;
        self.queue = Ghost(Seq::empty());
    }
}

} // verus!
