use ram::ring_buffer_pool::{RingBufferPool, DEFAULT_BUFFER_CAPACITY, DEFAULT_POOL_SIZE};

#[test]
fn new_pool_all_free() {
    let pool = RingBufferPool::new(8, 256);
    assert_eq!(pool.pool_size(), 8);
    assert_eq!(pool.buffer_capacity(), 256);
    assert_eq!(pool.free_count(), 8);
    assert_eq!(pool.allocated_count(), 0);
    assert!(!pool.is_exhausted());
}

#[test]
fn allocate_returns_index() {
    let mut pool = RingBufferPool::new(8, 256);
    let index = pool.allocate();
    assert!(index.is_some());
    assert!(index.unwrap() < 8);
    assert_eq!(pool.allocated_count(), 1);
    assert_eq!(pool.free_count(), 7);
}

#[test]
fn allocate_all_exhausts_pool() {
    let mut pool = RingBufferPool::new(4, 256);
    for _ in 0..4 {
        assert!(pool.allocate().is_some());
    }
    assert!(pool.is_exhausted());
    assert!(pool.allocate().is_none());
}

#[test]
fn free_returns_buffer_to_pool() {
    let mut pool = RingBufferPool::new(4, 256);
    let index = pool.allocate().unwrap();
    assert_eq!(pool.free_count(), 3);
    assert!(pool.free(index));
    assert_eq!(pool.free_count(), 4);
}

#[test]
fn free_invalid_index_fails() {
    let mut pool = RingBufferPool::new(4, 256);
    assert!(!pool.free(999));
}

#[test]
fn double_free_fails() {
    let mut pool = RingBufferPool::new(4, 256);
    let index = pool.allocate().unwrap();
    assert!(pool.free(index));
    assert!(!pool.free(index)); // Double free should fail
}

#[test]
fn is_allocated_works() {
    let mut pool = RingBufferPool::new(4, 256);
    let index = pool.allocate().unwrap();
    assert!(pool.is_allocated(index));
    pool.free(index);
    assert!(!pool.is_allocated(index));
}

#[test]
fn allocated_indices_returns_correct_set() {
    let mut pool = RingBufferPool::new(8, 256);
    let idx1 = pool.allocate().unwrap();
    let idx2 = pool.allocate().unwrap();
    let _idx3 = pool.allocate().unwrap();
    pool.free(idx2);
    let allocated = pool.allocated_indices();
    assert_eq!(allocated.len(), 2);
    assert!(allocated.contains(&idx1));
    assert!(!allocated.contains(&idx2));
}

#[test]
fn free_all_clears_pool() {
    let mut pool = RingBufferPool::new(4, 256);
    pool.allocate();
    pool.allocate();
    pool.allocate();
    assert_eq!(pool.allocated_count(), 3);
    pool.free_all();
    assert_eq!(pool.allocated_count(), 0);
    assert_eq!(pool.free_count(), 4);
}

#[test]
fn with_defaults_creates_expected_pool() {
    let pool = RingBufferPool::with_defaults();
    assert_eq!(pool.pool_size(), DEFAULT_POOL_SIZE);
    assert_eq!(pool.buffer_capacity(), DEFAULT_BUFFER_CAPACITY);
}

#[test]
fn defer_free_queues_buffer() {
    let mut pool = RingBufferPool::new(4, 256);
    let index = pool.allocate().unwrap();
    assert!(pool.is_allocated(index));
    assert_eq!(pool.pending_free_count(), 0);
    assert!(pool.defer_free(index, 1));
    assert!(pool.is_allocated(index));
    assert_eq!(pool.pending_free_count(), 1);
}

#[test]
fn process_pending_frees_respects_grace_period() {
    let mut pool = RingBufferPool::new(4, 256);
    let index = pool.allocate().unwrap();
    pool.defer_free(index, 1);
    assert_eq!(pool.process_pending_frees(2), 0);
    assert!(pool.is_allocated(index));
    assert_eq!(pool.process_pending_frees(3), 0);
    assert!(pool.is_allocated(index));
    assert_eq!(pool.process_pending_frees(4), 1);
    assert!(!pool.is_allocated(index));
}

#[test]
fn process_pending_frees_multiple_buffers() {
    let mut pool = RingBufferPool::new(8, 256);
    let idx1 = pool.allocate().unwrap();
    let idx2 = pool.allocate().unwrap();
    let idx3 = pool.allocate().unwrap();
    pool.defer_free(idx1, 1);
    pool.defer_free(idx2, 2);
    pool.defer_free(idx3, 5);
    assert_eq!(pool.pending_free_count(), 3);
    assert_eq!(pool.process_pending_frees(4), 1);
    assert!(!pool.is_allocated(idx1));
    assert!(pool.is_allocated(idx2));
    assert!(pool.is_allocated(idx3));
    assert_eq!(pool.process_pending_frees(5), 1);
    assert!(!pool.is_allocated(idx2));
    assert!(pool.is_allocated(idx3));
    assert_eq!(pool.process_pending_frees(8), 1);
    assert!(!pool.is_allocated(idx3));
    assert_eq!(pool.pending_free_count(), 0);
}

#[test]
fn defer_free_invalid_index_returns_false() {
    let mut pool = RingBufferPool::new(4, 256);
    assert!(!pool.defer_free(999, 1));
}

#[test]
fn defer_free_already_free_returns_false() {
    let mut pool = RingBufferPool::new(4, 256);
    let index = pool.allocate().unwrap();
    pool.free(index);
    assert!(!pool.defer_free(index, 1));
}

#[test]
fn free_all_clears_pending() {
    let mut pool = RingBufferPool::new(4, 256);
    let idx1 = pool.allocate().unwrap();
    let idx2 = pool.allocate().unwrap();
    pool.defer_free(idx1, 1);
    pool.defer_free(idx2, 1);
    assert_eq!(pool.pending_free_count(), 2);
    assert_eq!(pool.free_count(), 2);
    pool.free_all();
    assert_eq!(pool.pending_free_count(), 0);
    assert_eq!(pool.free_count(), 4);
}

#[test]
fn pending_queue_stops_at_first_unready_entry() {
    let mut pool = RingBufferPool::new(4, 256);
    let a = pool.allocate().unwrap();
    let b = pool.allocate().unwrap();
    // The later entry is older, but the queue is processed in order.
    pool.defer_free(a, 10);
    pool.defer_free(b, 1);
    assert_eq!(pool.process_pending_frees(5), 0);
    assert!(pool.is_allocated(b));
    assert_eq!(pool.process_pending_frees(13), 2);
}

#[test]
fn allocate_free_allocate_reuses() {
    let mut pool = RingBufferPool::new(1, 16);
    let i = pool.allocate().unwrap();
    assert!(pool.allocate().is_none());
    assert!(pool.free(i));
    assert_eq!(pool.allocate(), Some(i));
}

#[test]
fn get_returns_buffer() {
    let mut pool = RingBufferPool::new(4, 256);

    let index = pool.allocate().unwrap();
    let buffer = pool.get(index);
    assert!(buffer.is_some());

    // Write to the buffer
    let buffer = pool.buffer_mut(index);
    let samples = [0.5f32.to_bits(); 64];
    assert_eq!(buffer.write(&samples), 64);
}

#[test]
fn get_invalid_index_returns_none() {
    let pool = RingBufferPool::new(4, 256);
    assert!(pool.get(999).is_none());
}

#[test]
fn allocate_clears_buffer() {
    let mut pool = RingBufferPool::new(4, 256);

    let index = pool.allocate().unwrap();
    let buffer = pool.buffer_mut(index);

    // Write data
    let samples = [0.5f32.to_bits(); 64];
    buffer.write(&samples);
    assert_eq!(pool.get(index).unwrap().available(), 64);

    // Free and reallocate
    pool.free(index);
    let new_index = pool.allocate().unwrap();

    // Buffer should be cleared
    let new_buffer = pool.get(new_index).unwrap();
    assert_eq!(new_buffer.available(), 0);
}

#[test]
fn pool_buffers_round_capacity_up() {
    let pool = RingBufferPool::new(2, 300);
    assert_eq!(pool.get(1).unwrap().free(), 512);
}
