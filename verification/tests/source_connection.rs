use ram::connection::{ConnectionId, Pulled, SourceConnection};

fn test_id() -> ConnectionId {
    ConnectionId::local("Mic", 1, "Speaker", 1)
}

fn bits(values: &[f32]) -> Vec<u32> {
    values.iter().map(|v| v.to_bits()).collect()
}

fn gain(conn: &SourceConnection) -> f32 {
    f32::from_bits(conn.gain_bits())
}

/// Processing as the audio path does it: pull, then scale by the gain.
fn process(conn: &mut SourceConnection, output: &mut [f32]) -> usize {
    let mut out = bits(output);
    let n = match conn.pull(&mut out) {
        Pulled::Disabled(n) | Pulled::Muted(n) => n,
        Pulled::Audio(n) => {
            let g = gain(conn);
            if (g - 1.0).abs() > f32::EPSILON {
                for b in &mut out[..n] {
                    *b = (f32::from_bits(*b) * g).to_bits();
                }
            }
            n
        },
    };
    for (o, b) in output.iter_mut().zip(out.iter()) {
        *o = f32::from_bits(*b);
    }
    n
}

#[test]
fn source_connection_new() {
    let conn = SourceConnection::new(test_id(), 1024);
    assert_eq!(conn.id(), &test_id());
    assert!((gain(&conn) - 1.0).abs() < f32::EPSILON);
    assert!(!conn.is_muted());
    assert!(conn.is_enabled());
}

#[test]
fn source_connection_write_read() {
    let mut conn = SourceConnection::new(test_id(), 1024);
    let input = [0.5_f32; 64];
    let written = conn.write(&bits(&input));
    assert_eq!(written, 64);

    let mut output = [0.0_f32; 64];
    let processed = process(&mut conn, &mut output);
    assert_eq!(processed, 64);

    for sample in &output {
        assert!((*sample - 0.5).abs() < f32::EPSILON);
    }
}

#[test]
fn source_connection_gain() {
    let mut conn = SourceConnection::new(test_id(), 1024);
    conn.write(&bits(&[1.0; 64]));

    conn.set_gain_bits(0.5_f32.to_bits());
    assert!((gain(&conn) - 0.5).abs() < f32::EPSILON);

    let mut output = [0.0_f32; 64];
    process(&mut conn, &mut output);

    for sample in &output {
        assert!((*sample - 0.5).abs() < f32::EPSILON);
    }
}

#[test]
fn source_connection_mute() {
    let mut conn = SourceConnection::new(test_id(), 1024);
    conn.write(&bits(&[1.0; 64]));

    conn.set_muted(true);
    assert!(conn.is_muted());

    let mut output = [0.0_f32; 64];
    process(&mut conn, &mut output);

    for sample in &output {
        assert!(sample.abs() < f32::EPSILON);
    }
}

#[test]
fn source_connection_disabled() {
    let mut conn = SourceConnection::new(test_id(), 1024);
    conn.write(&bits(&[1.0; 64]));

    conn.set_enabled(false);
    assert!(!conn.is_enabled());

    let mut output = [1.0_f32; 64]; // Fill with non-zero
    process(&mut conn, &mut output);

    // Should be zeroed
    for sample in &output {
        assert!(sample.abs() < f32::EPSILON);
    }
}

#[test]
fn source_connection_buffer_stats() {
    let mut conn = SourceConnection::new(test_id(), 1024);
    assert_eq!(conn.capacity(), 1024);
    assert_eq!(conn.available(), 0);

    conn.write(&bits(&[0.5; 100]));
    assert_eq!(conn.available(), 100);
}

#[test]
fn disabled_connection_keeps_its_samples() {
    let mut conn = SourceConnection::new(test_id(), 8);
    conn.write(&[1, 2, 3]);
    conn.set_enabled(false);
    let mut out = [9u32; 4];
    assert_eq!(conn.pull(&mut out), Pulled::Disabled(4));
    assert_eq!(out, [0, 0, 0, 0]);
    assert_eq!(conn.available(), 3);
    conn.set_enabled(true);
    assert_eq!(conn.pull(&mut out), Pulled::Audio(3));
    assert_eq!(out, [1, 2, 3, 0]);
}

#[test]
fn muted_connection_silences_only_what_it_read() {
    let mut conn = SourceConnection::new(test_id(), 8);
    conn.write(&[5, 6]);
    conn.set_muted(true);
    let mut out = [7u32; 4];
    assert_eq!(conn.pull(&mut out), Pulled::Muted(2));
    assert_eq!(out, [0, 0, 7, 7]);
    assert_eq!(conn.available(), 0);
}
