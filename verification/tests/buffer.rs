use ram::buffer::RingBuffer;

fn bits(values: &[f32]) -> Vec<u32> {
    values.iter().map(|v| v.to_bits()).collect()
}

#[test]
fn new_buffer_is_empty() {
    let buffer = RingBuffer::new(1024);
    assert_eq!(buffer.available(), 0);
    assert!(buffer.free() >= 1024);
}

#[test]
fn write_read_roundtrip() {
    let mut buffer = RingBuffer::new(1024);
    let samples = [0.5_f32; 64];

    let written = buffer.write(&bits(&samples));
    assert_eq!(written, 64);
    assert_eq!(buffer.available(), 64);

    let mut output = vec![0.0_f32.to_bits(); 64];
    let read = buffer.read(&mut output);
    assert_eq!(read, 64);
    assert!(output
        .iter()
        .map(|b| f32::from_bits(*b))
        .zip(samples.iter())
        .all(|(a, b)| (a - b).abs() < f32::EPSILON));
    assert_eq!(buffer.available(), 0);
}

#[test]
fn write_respects_capacity() {
    let mut buffer = RingBuffer::new(64);
    let samples = [0.5_f32; 128];

    let written = buffer.write(&bits(&samples));
    assert!(written <= 64);
}

#[test]
fn clear_resets_buffer() {
    let mut buffer = RingBuffer::new(1024);
    let samples = [0.5_f32; 64];

    buffer.write(&bits(&samples));
    assert_eq!(buffer.available(), 64);

    buffer.clear();
    assert_eq!(buffer.available(), 0);
}

#[test]
fn capacity_rounds_up_to_power_of_two() {
    assert_eq!(RingBuffer::new(1000).free(), 1024);
    assert_eq!(RingBuffer::new(1024).free(), 1024);
    assert_eq!(RingBuffer::new(1).free(), 1);
    assert_eq!(RingBuffer::new(0).free(), 1);
    assert_eq!(RingBuffer::new(3).free(), 4);
}

#[test]
fn samples_come_out_in_order_across_the_wrap() {
    let mut buffer = RingBuffer::new(4);
    assert_eq!(buffer.write(&[1, 2, 3]), 3);
    let mut out = [0u32; 2];
    assert_eq!(buffer.read(&mut out), 2);
    assert_eq!(out, [1, 2]);
    // Positions now wrap past the end of the storage.
    assert_eq!(buffer.write(&[4, 5, 6, 7]), 3);
    assert_eq!(buffer.available(), 4);
    assert_eq!(buffer.free(), 0);
    let mut all = [9u32; 6];
    assert_eq!(buffer.read(&mut all), 4);
    assert_eq!(all, [3, 4, 5, 6, 9, 9]);
    assert_eq!(buffer.available(), 0);
}

#[test]
fn read_from_empty_buffer_leaves_output_alone() {
    let mut buffer = RingBuffer::new(8);
    let mut out = [7u32; 3];
    assert_eq!(buffer.read(&mut out), 0);
    assert_eq!(out, [7, 7, 7]);
}

#[test]
fn full_buffer_takes_nothing_more() {
    let mut buffer = RingBuffer::new(2);
    assert_eq!(buffer.write(&[1, 2, 3]), 2);
    assert_eq!(buffer.write(&[4]), 0);
    let mut out = [0u32; 2];
    assert_eq!(buffer.read(&mut out), 2);
    assert_eq!(out, [1, 2]);
}
