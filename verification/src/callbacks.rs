//! The sample moving of the audio callbacks: an input block is split by
//! channel into the ring buffers of the channels, and mixed channels are
//! woven back into an interleaved output block.
//!
//! Samples are `f32` bit patterns here; metering and mixing, which compute
//! with them, happen around these functions.

use vstd::prelude::*;
use crate::buffer::after_write;
use crate::ring_buffer_pool::RingBufferPool;

verus! {

/// Maximum number of channels that can be processed in a single callback.
pub const MAX_CALLBACK_CHANNELS: usize = 64;

/// Maximum buffer size in samples per channel: the most samples of each
/// channel one callback moves.
pub const MAX_BUFFER_SIZE: usize = 4096;

/// The first `n` samples of channel `ch` of interleaved frames with
/// `channels` channels.
pub open spec fn deinterleave(data: Seq<u32>, channels: nat, ch: nat, n: nat) -> Seq<u32> {
    Seq::new(n, |i: int| data[i * channels + ch])
}

/// How many samples of each channel a callback moves: the whole frames
/// of the block, at most [`MAX_BUFFER_SIZE`].
pub open spec fn frames_to_process(len: nat, channels: nat) -> nat {
    let frames = len / channels;
    if frames < MAX_BUFFER_SIZE {
        frames
    } else {
        MAX_BUFFER_SIZE as nat
    }
}

/// The queues of a pool's buffers after the first `k` channels of a block
/// were written, channel by channel in order, each into the buffer its
/// index names; an index outside the pool is skipped.
pub open spec fn after_input(
    queues: Seq<Seq<u32>>,
    caps: Seq<nat>,
    indices: Seq<usize>,
    data: Seq<u32>,
    n: nat,
    k: nat,
) -> Seq<Seq<u32>>
    decreases k,
{
    if k == 0 {
        queues
    } else {
        let before = after_input(queues, caps, indices, data, n, (k - 1) as nat);
        let idx = indices[k - 1] as int;
        if 0 <= idx < before.len() {
            before.update(
                idx,
                after_write(before[idx], caps[idx], deinterleave(data, indices.len(), (k - 1) as nat, n)),
            )
        } else {
            before
        }
    }
}

/// The queues of a pool's buffers.
pub open spec fn pool_queues(pool: RingBufferPool) -> Seq<Seq<u32>> {
    pool.buffers().map_values(|b: crate::buffer::RingBuffer| b@)
}

/// The capacities of a pool's buffers.
pub open spec fn pool_caps(pool: RingBufferPool) -> Seq<nat> {
    pool.buffers().map_values(|b: crate::buffer::RingBuffer| b.cap())
}

/// Writing the first `k` channels keeps the number of queues, and the
/// queue of channel `c`'s buffer holds its block once that channel was
/// written and is untouched before, where every channel has a buffer of
/// its own that starts empty with room for the block.
proof fn lemma_after_input_channel(
    queues: Seq<Seq<u32>>,
    caps: Seq<nat>,
    indices: Seq<usize>,
    data: Seq<u32>,
    n: nat,
    k: nat,
    c: int,
)
    requires
        caps.len() == queues.len(),
        k <= indices.len(),
        0 <= c < indices.len(),
        forall|a: int, b: int| 0 <= a < b < indices.len() ==> indices[a] != indices[b],
        forall|a: int|
            0 <= a < indices.len() ==> (#[trigger] indices[a]) < queues.len() && queues[indices[a] as int].len() == 0
                && n <= caps[indices[a] as int],
    ensures
        after_input(queues, caps, indices, data, n, k).len() == queues.len(),
        after_input(queues, caps, indices, data, n, k)[indices[c] as int] == if c < k {
            deinterleave(data, indices.len(), c as nat, n)
        } else {
            queues[indices[c] as int]
        },
    decreases k,
{
    if k > 0 {
        lemma_after_input_channel(queues, caps, indices, data, n, (k - 1) as nat, c);
        lemma_after_input_channel(queues, caps, indices, data, n, (k - 1) as nat, k - 1);
        let block = deinterleave(data, indices.len(), (k - 1) as nat, n);
        assert(Seq::<u32>::empty() + block.take(block.len() as int) =~= block);
        assert(queues[indices[k - 1] as int] + block.take(block.len() as int) =~= block);
    }
}

/// With a buffer of its own for every channel, each starting empty with
/// room for the block, an input block's channels arrive each in its own
/// buffer, in order.
pub proof fn law_input_block_splits_by_channel(
    queues: Seq<Seq<u32>>,
    caps: Seq<nat>,
    indices: Seq<usize>,
    data: Seq<u32>,
    n: nat,
    c: int,
)
    requires
        caps.len() == queues.len(),
        0 <= c < indices.len(),
        forall|a: int, b: int| 0 <= a < b < indices.len() ==> indices[a] != indices[b],
        forall|a: int|
            0 <= a < indices.len() ==> (#[trigger] indices[a]) < queues.len() && queues[indices[a] as int].len() == 0
                && n <= caps[indices[a] as int],
    ensures
        after_input(queues, caps, indices, data, n, indices.len())[indices[c] as int] == deinterleave(
            data,
            indices.len(),
            c as nat,
            n,
        ),
{
    lemma_after_input_channel(queues, caps, indices, data, n, indices.len(), c);
}

/// A frame index and a channel within whole frames stay inside the block.
proof fn lemma_frame_index(i: int, ch: int, channels: int, len: int)
    requires
        0 <= i < len / channels,
        0 <= ch < channels,
        channels > 0,
        len >= 0,
    ensures
        0 <= i * channels + ch < len,
{
    assert(0 <= i * channels + ch < len) by (nonlinear_arith)
        requires
            0 <= i < len / channels,
            0 <= ch < channels,
            channels > 0,
            len >= 0,
    {
        assert((i + 1) * channels <= (len / channels) * channels);
        assert((len / channels) * channels <= len);
    }
}

/// Splits an interleaved input block by channel and writes each channel's
/// samples into the pool buffer its index names, as many as the buffer has
/// room for; channels whose index is outside the pool are skipped. One
/// channel per index; an empty channel list or a block without a whole
/// frame moves nothing.
pub fn write_input_block(pool: &mut RingBufferPool, buffer_indices: &[usize], data: &[u32])
    requires
        old(pool).wf(),
    ensures
        final(pool).wf(),
        final(pool).free_flags() == old(pool).free_flags(),
        final(pool).pending_queue() == old(pool).pending_queue(),
        final(pool).capacity() == old(pool).capacity(),
        pool_caps(*final(pool)) == pool_caps(*old(pool)),
        buffer_indices@.len() == 0 || data@.len() < buffer_indices@.len() ==> *final(pool) == *old(pool),
        buffer_indices@.len() > 0 && data@.len() >= buffer_indices@.len() ==> pool_queues(*final(pool)) == after_input(
            pool_queues(*old(pool)),
            pool_caps(*old(pool)),
            buffer_indices@,
            data@,
            frames_to_process(data@.len(), buffer_indices@.len()),
            buffer_indices@.len(),
        ),
{
    let channels = buffer_indices.len();
    if channels == 0 {
        return;
    }
    let frames = data.len() / channels;
    if frames == 0 {
        assert(data@.len() < channels) by (nonlinear_arith)
            requires
                frames == data@.len() / (channels as nat),
                frames == 0,
                channels > 0,
        ;
        return;
    }
    assert(data@.len() >= channels) by (nonlinear_arith)
        requires
            frames == data@.len() / (channels as nat),
            frames != 0,
            channels > 0,
    ;
    let n: usize = if frames < MAX_BUFFER_SIZE {
        frames
    } else {
        MAX_BUFFER_SIZE
    };
    let ghost q0 = pool_queues(*pool);
    let ghost c0 = pool_caps(*pool);
    let mut ch: usize = 0;
    while ch < channels
        invariant
            pool.wf(),
            channels == buffer_indices@.len(),
            channels > 0,
            data@.len() >= channels,
            data@.len() <= usize::MAX,
            n == frames_to_process(data@.len(), channels as nat),
            ch <= channels,
            pool.free_flags() == old(pool).free_flags(),
            pool.pending_queue() == old(pool).pending_queue(),
            pool.capacity() == old(pool).capacity(),
            pool_caps(*pool) == c0,
            c0 == pool_caps(*old(pool)),
            q0 == pool_queues(*old(pool)),
            pool_queues(*pool) == after_input(q0, c0, buffer_indices@, data@, n as nat, ch as nat),
        decreases channels - ch,
    {
        let mut block: Vec<u32> = Vec::new();
        let mut i: usize = 0;
        while i < n
            invariant
                channels == buffer_indices@.len(),
                channels > 0,
                data@.len() <= usize::MAX,
                ch < channels,
                n == frames_to_process(data@.len(), channels as nat),
                i <= n,
                block@ == deinterleave(data@, channels as nat, ch as nat, i as nat),
            decreases n - i,
        {
            proof {
                assert(i < data@.len() / (channels as nat));
                lemma_frame_index(i as int, ch as int, channels as int, data@.len() as int);
                assert(i * channels + ch < data@.len());
            }
            block.push(data[i * channels + ch]);
            i = i + 1;
            proof {
                assert(block@ =~= deinterleave(data@, channels as nat, ch as nat, i as nat));
            }
        }
        let idx = buffer_indices[ch];
        let ghost before = pool_queues(*pool);
        if idx < pool.pool_size() {
            let ghost old_pool = *pool;
            proof {
                pool.lemma_buffers_match_flags();
            }
            let buffer = pool.buffer_mut(idx);
            buffer.write(&block);
            proof {
                assert(pool_queues(*pool) =~= before.update(idx as int, after_write(before[idx as int], c0[idx as int], block@)));
                assert(pool_caps(*pool) =~= c0);
            }
        } else {
            proof {
                pool.lemma_buffers_match_flags();
            }
        }
        ch = ch + 1;
    }
}

/// Writes `n` samples of one channel into an interleaved output block with
/// `channels` channels; the other samples of the block are left as they
/// were.
pub fn write_output_channel(data: &mut [u32], channels: usize, ch: usize, samples: &[u32], n: usize)
    requires
        ch < channels,
        n <= samples@.len(),
        n <= old(data)@.len() / (channels as nat),
    ensures
        final(data)@.len() == old(data)@.len(),
        forall|i: int| 0 <= i < n ==> #[trigger] final(data)@[i * channels + ch] == samples@[i],
        forall|j: int|
            0 <= j < old(data)@.len() && !(j % (channels as int) == ch && j / (channels as int) < n) ==> #[trigger] final(data)@[j] == old(data)@[j],
{
    let len = data.len();
    let mut i: usize = 0;
    while i < n
        invariant
            len == old(data)@.len(),
            ch < channels,
            n <= samples@.len(),
            n <= old(data)@.len() / (channels as nat),
            i <= n,
            data@.len() == old(data)@.len(),
            forall|k: int| 0 <= k < i ==> #[trigger] data@[k * channels + ch] == samples@[k],
            forall|j: int|
                0 <= j < old(data)@.len() && !(j % (channels as int) == ch && j / (channels as int) < i) ==> #[trigger] data@[j]
                    == old(data)@[j],
        decreases n - i,
    {
        proof {
            lemma_frame_index(i as int, ch as int, channels as int, data@.len() as int);
        }
        let pos = i * channels + ch;
        let ghost before = data@;
        data[pos] = samples[i];
        proof {
            assert forall|k: int| 0 <= k < i + 1 implies #[trigger] data@[k * channels + ch] == samples@[k] by {
                if k < i {
                    assert(k * channels + ch != pos) by (nonlinear_arith)
                        requires
                            0 <= k < i,
                            0 <= ch < channels,
                            pos == i * channels + ch,
                    ;
                    lemma_frame_index(k, ch as int, channels as int, data@.len() as int);
                    assert(data@[k * channels + ch] == before[k * channels + ch]);
                } else {
                    assert(k * channels + ch == pos);
                }
            }
            assert forall|j: int|
                0 <= j < old(data)@.len() && !(j % (channels as int) == ch && j / (channels as int) < i + 1) implies #[trigger] data@[j]
                    == old(data)@[j] by {
                if j == pos {
                    assert(j % (channels as int) == ch && j / (channels as int) == i) by (nonlinear_arith)
                        requires
                            j == i * channels + ch,
                            0 <= ch < channels,
                            i >= 0,
                    ;
                }
            }
        }
        i = i + 1;
    }
}

/// A callback moves every whole frame of its block up to 4096 frames: a
/// block of at most 4096 whole frames is moved in full, a longer one is cut
/// to exactly 4096 frames, and a partial frame at the end is never moved.
pub proof fn law_input_moves_whole_frames(len: nat, channels: nat)
    requires
        channels > 0,
    ensures
        len / channels <= 4096 ==> frames_to_process(len, channels) == len / channels,
        len / channels > 4096 ==> frames_to_process(len, channels) == 4096,
        frames_to_process(len, channels) * channels <= len,
{
    let f = len / channels;
    assert(f * channels <= len) by (nonlinear_arith)
        requires
            channels > 0,
            f == len / channels,
    ;
    assert(frames_to_process(len, channels) * channels <= f * channels) by (nonlinear_arith)
        requires
            frames_to_process(len, channels) <= f,
    ;
}

} // verus!
