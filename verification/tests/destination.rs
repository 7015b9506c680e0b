use ram::connection::{ConnectionId, Pulled, SourceConnection};
use ram::destination::{DestinationChannel, HeadroomMode};

#[test]
fn destination_new() {
    let dest = DestinationChannel::new("test-dest", 256);
    assert_eq!(dest.id(), "test-dest");
    assert_eq!(dest.headroom_mode(), HeadroomMode::Clip);
    assert_eq!(dest.source_count(), 0);
}

#[test]
fn destination_add_remove_source() {
    let mut dest = DestinationChannel::new("test", 256);
    let id = ConnectionId::local("Mic", 1, "test", 1);
    let source = SourceConnection::new(id.clone(), 1024);

    dest.add_source(source);
    assert_eq!(dest.source_count(), 1);

    assert!(dest.remove_source(&id));
    assert_eq!(dest.source_count(), 0);

    // Removing non-existent returns false
    assert!(!dest.remove_source(&id));
}

#[test]
fn removing_a_source_keeps_the_others_in_order() {
    let mut dest = DestinationChannel::new("out", 64);
    let a = ConnectionId::local("Mic", 1, "out", 1);
    let b = ConnectionId::local("Mic", 2, "out", 1);
    let mut sa = SourceConnection::new(a.clone(), 8);
    sa.write(&[10]);
    let mut sb = SourceConnection::new(b.clone(), 8);
    sb.write(&[20]);
    dest.add_source(sa);
    dest.add_source(SourceConnection::new(a.clone(), 8));
    dest.add_source(sb);
    assert_eq!(dest.source_count(), 3);
    assert!(dest.remove_source(&a));
    assert_eq!(dest.source_count(), 1);
    let mut out = [0u32; 2];
    assert_eq!(dest.pull_source(0, &mut out), Pulled::Audio(1));
    assert_eq!(out, [20, 0]);
}

#[test]
fn manual_headroom_defaults_to_minus_six_db() {
    let dest = DestinationChannel::new("out", 64);
    assert_eq!(f32::from_bits(dest.manual_headroom_db_bits()), -6.0);
    dest.set_manual_headroom_db_bits((-3.0_f32).to_bits());
    assert_eq!(f32::from_bits(dest.manual_headroom_db_bits()), -3.0);
    dest.set_headroom_mode(HeadroomMode::Limiter);
    assert_eq!(dest.headroom_mode(), HeadroomMode::Limiter);
}
