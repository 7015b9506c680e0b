use ram::callbacks::{write_input_block, write_output_channel, MAX_BUFFER_SIZE, MAX_CALLBACK_CHANNELS};
use ram::ring_buffer_pool::RingBufferPool;

fn bits(values: &[f32]) -> Vec<u32> {
    values.iter().map(|v| v.to_bits()).collect()
}

fn read_all(pool: &mut RingBufferPool, index: usize, n: usize) -> Vec<f32> {
    let mut out = vec![0u32; n];
    let read = pool.buffer_mut(index).read(&mut out);
    out.truncate(read);
    out.into_iter().map(f32::from_bits).collect()
}

#[test]
fn input_callback_de_interleaves() {
    let mut pool = RingBufferPool::new(16, 256);

    // Allocate buffers for 2 channels
    let idx0 = pool.allocate().unwrap();
    let idx1 = pool.allocate().unwrap();

    // Interleaved stereo data: L0, R0, L1, R1, L2, R2, L3, R3
    let input = [0.1_f32, 0.2, 0.3, 0.4, 0.5, 0.6, 0.7, 0.8];
    write_input_block(&mut pool, &[idx0, idx1], &bits(&input));

    // Check left channel buffer
    let left_out = read_all(&mut pool, idx0, 4);
    assert!((left_out[0] - 0.1).abs() < 0.001);
    assert!((left_out[1] - 0.3).abs() < 0.001);
    assert!((left_out[2] - 0.5).abs() < 0.001);
    assert!((left_out[3] - 0.7).abs() < 0.001);

    // Check right channel buffer
    let right_out = read_all(&mut pool, idx1, 4);
    assert!((right_out[0] - 0.2).abs() < 0.001);
    assert!((right_out[1] - 0.4).abs() < 0.001);
    assert!((right_out[2] - 0.6).abs() < 0.001);
    assert!((right_out[3] - 0.8).abs() < 0.001);
}

#[test]
fn partial_frames_and_unknown_buffers_are_skipped() {
    let mut pool = RingBufferPool::new(2, 16);
    // Three channels; the last names no buffer of the pool; 7 samples make
    // two whole frames.
    write_input_block(&mut pool, &[0, 1, 99], &[1, 2, 3, 4, 5, 6, 7]);
    assert_eq!(read_all(&mut pool, 0, 8), vec![f32::from_bits(1), f32::from_bits(4)]);
    assert_eq!(pool.get(1).unwrap().available(), 2);
    // Fewer samples than channels: nothing moves.
    write_input_block(&mut pool, &[0, 1], &[9]);
    assert_eq!(pool.get(0).unwrap().available(), 0);
}

#[test]
fn channels_sharing_a_buffer_are_written_one_after_the_other() {
    let mut pool = RingBufferPool::new(1, 16);
    write_input_block(&mut pool, &[0, 0], &[1, 2, 3, 4]);
    let mut out = [0u32; 4];
    assert_eq!(pool.buffer_mut(0).read(&mut out), 4);
    assert_eq!(out, [1, 3, 2, 4]);
}

#[test]
fn output_channel_is_woven_into_the_block() {
    let mut block = [0u32; 6];
    write_output_channel(&mut block, 3, 1, &[7, 8], 2);
    assert_eq!(block, [0, 7, 0, 0, 8, 0]);
    write_output_channel(&mut block, 3, 2, &[5, 6, 9], 1);
    assert_eq!(block, [0, 7, 5, 0, 8, 0]);
}

#[test]
fn callback_limits() {
    assert_eq!(MAX_CALLBACK_CHANNELS, 64);
    assert_eq!(MAX_BUFFER_SIZE, 4096);
}
