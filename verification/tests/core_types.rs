use std::sync::atomic::Ordering;
use std::time::Duration;

use ram::active_stream::{StreamConfig, StreamState, StreamStats};
use ram::atomic::AtomicF32;
use ram::destination::{AtomicHeadroomMode, HeadroomMode};
use ram::latency::{LatencyCalculator, TimingStats};
use ram::stream_registry::AggregateStats;
use ram::metering::MeterBank;
use ram::resampler::ResamplerQuality;
use ram::routing::EndpointId;
use ram::subscription::{Subscription, SubscriptionState};

#[test]
fn headroom_mode_default() {
    assert_eq!(HeadroomMode::default(), HeadroomMode::Clip);
}

#[test]
fn headroom_mode_from_u8() {
    assert_eq!(HeadroomMode::from_u8(0), Some(HeadroomMode::Clip));
    assert_eq!(HeadroomMode::from_u8(1), Some(HeadroomMode::AutoGain));
    assert_eq!(HeadroomMode::from_u8(2), Some(HeadroomMode::Limiter));
    assert_eq!(HeadroomMode::from_u8(3), Some(HeadroomMode::Manual));
    assert_eq!(HeadroomMode::from_u8(4), None);
}

#[test]
fn destination_atomic_headroom_mode() {
    let atomic = AtomicHeadroomMode::new(HeadroomMode::AutoGain);
    assert_eq!(atomic.load(), HeadroomMode::AutoGain);

    atomic.store(HeadroomMode::Limiter);
    assert_eq!(atomic.load(), HeadroomMode::Limiter);
}

#[test]
fn active_stream_stream_config_default() {
    let config = StreamConfig::default();
    assert_eq!(config.sample_rate, 48000);
    assert_eq!(config.buffer_size, 256);
    assert_eq!(config.channels, 2);
}

#[test]
fn stream_state_from_u8() {
    assert_eq!(StreamState::from_u8(0), StreamState::Stopped);
    assert_eq!(StreamState::from_u8(1), StreamState::Running);
    assert_eq!(StreamState::from_u8(2), StreamState::Error);
    assert_eq!(StreamState::from_u8(99), StreamState::Error);
}

#[test]
fn stream_stats_counting() {
    let stats = StreamStats::new();

    assert_eq!(stats.callbacks(), 0);
    assert_eq!(stats.underruns(), 0);
    assert_eq!(stats.overruns(), 0);

    stats.record_callback();
    stats.record_callback();
    assert_eq!(stats.callbacks(), 2);

    stats.record_underrun();
    assert_eq!(stats.underruns(), 1);

    stats.record_overrun();
    stats.record_overrun();
    stats.record_overrun();
    assert_eq!(stats.overruns(), 3);
}

#[test]
fn new_stores_initial_value() {
    let atomic = AtomicF32::from_bits(0.5f32.to_bits());
    assert!((f32::from_bits(atomic.get_bits()) - 0.5).abs() < f32::EPSILON);
}

#[test]
fn default_is_zero() {
    let atomic = AtomicF32::default();
    assert!(f32::from_bits(atomic.get_bits()).abs() < f32::EPSILON);
}

#[test]
fn ordering_variants() {
    let atomic = AtomicF32::from_bits(1.0f32.to_bits());

    atomic.store_bits(2.0f32.to_bits(), Ordering::Relaxed);
    assert!((f32::from_bits(atomic.load_bits(Ordering::Relaxed)) - 2.0).abs() < f32::EPSILON);

    atomic.store_bits(3.0f32.to_bits(), Ordering::Release);
    assert!((f32::from_bits(atomic.load_bits(Ordering::Acquire)) - 3.0).abs() < f32::EPSILON);

    atomic.store_bits(4.0f32.to_bits(), Ordering::SeqCst);
    assert!((f32::from_bits(atomic.load_bits(Ordering::SeqCst)) - 4.0).abs() < f32::EPSILON);
}

#[test]
fn atomic_swap_returns_previous_bits() {
    let atomic = AtomicF32::from_bits(7);
    assert_eq!(atomic.swap_bits(9, Ordering::SeqCst), 7);
    assert_eq!(atomic.get_bits(), 9);
}

#[test]
fn latency_calculator_samples_to_duration() {
    let calc = LatencyCalculator::new(48000);

    // 48 samples @ 48kHz = 1ms
    let duration = calc.samples_to_duration(48);
    assert_eq!(duration.as_micros(), 1000);

    // 256 samples @ 48kHz = 5.33ms
    let duration = calc.samples_to_duration(256);
    assert!(duration.as_micros() >= 5333 && duration.as_micros() <= 5334);
}

#[test]
fn latency_calculator_micros_and_samples() {
    let calc = LatencyCalculator::new(48000);
    assert_eq!(calc.samples_to_micros(48), 1000);
    assert_eq!(calc.micros_to_samples(1000), 48);
    assert_eq!(calc.duration_to_samples(Duration::from_millis(10)), 480);
}

#[test]
fn meter_bank_new() {
    let bank = MeterBank::new(4);
    assert_eq!(bank.channel_count(), 4);
    assert!(bank.get(3).is_some());
    assert!(bank.get(4).is_none());
}

#[test]
fn resampler_quality_sinc_len() {
    assert!(ResamplerQuality::Fast.sinc_len() < ResamplerQuality::Normal.sinc_len());
    assert!(ResamplerQuality::Normal.sinc_len() < ResamplerQuality::High.sinc_len());
}

#[test]
fn resampler_quality_default() {
    assert_eq!(ResamplerQuality::default(), ResamplerQuality::Normal);
}

#[test]
fn endpoint_id_display() {
    let ep = EndpointId::new("host1", "Device A", 1);
    assert_eq!(ep.to_string(), "host1:Device A:1");
}

#[test]
fn endpoint_id_local_display() {
    let ep = EndpointId::local("Mic", 3);
    assert_eq!(ep.to_string(), "LOCAL:Mic:3");
}

#[test]
fn subscription_timeout() {
    let sub = Subscription::new(
        1,
        "node1".to_string(),
        "device1".to_string(),
        vec![1],
        "device2".to_string(),
        vec![1],
        "STREAM1".to_string(),
        48000,
    );

    assert!(!sub.is_timed_out(Duration::from_secs(1)));
}

#[test]
fn subscription_state_transitions() {
    let mut sub = Subscription::new(
        1,
        "node1".to_string(),
        "device1".to_string(),
        vec![1],
        "device2".to_string(),
        vec![1],
        "STREAM1".to_string(),
        48000,
    );

    assert_eq!(sub.state, SubscriptionState::Pending);

    sub.activate();
    assert_eq!(sub.state, SubscriptionState::Active);
}

#[test]
fn subscription_timeout_boundary() {
    assert!(!ram::subscription::is_timed_out_after(1000, 1000));
    assert!(ram::subscription::is_timed_out_after(1001, 1000));
}

#[test]
fn timing_stats_jitter() {
    let stats = TimingStats {
        callback_count: 100,
        expected_interval_us: 5333, // 256 samples @ 48kHz
        avg_interval_us: 5400,
        min_interval_us: 5000,
        max_interval_us: 6000,
        jitter_us: 1000,
    };

    let jitter_pct = (stats.jitter_us as f32 / stats.expected_interval_us as f32) * 100.0;
    assert!(jitter_pct > 18.0 && jitter_pct < 19.0); // ~18.75%
    assert!(!stats.is_stable()); // > 10%
}

#[test]
fn timing_stats_stability_edges() {
    let mut stats = TimingStats {
        callback_count: 10,
        expected_interval_us: 1000,
        avg_interval_us: 1000,
        min_interval_us: 950,
        max_interval_us: 1049,
        jitter_us: 99,
    };
    assert!(stats.is_stable());
    stats.jitter_us = 100;
    assert!(!stats.is_stable());
    stats.expected_interval_us = 0;
    assert!(stats.is_stable());
}

#[test]
fn aggregate_stats_default_is_zero() {
    let stats = AggregateStats::default();
    assert_eq!(stats.stream_count, 0);
    assert_eq!(stats.total_callbacks, 0);
    assert_eq!(stats.total_underruns, 0);
    assert_eq!(stats.total_overruns, 0);
}

#[test]
fn samples_survive_a_duration_roundtrip_within_one() {
    let calc = LatencyCalculator::new(48000);
    assert_eq!(calc.duration_to_samples(calc.samples_to_duration(48)), 48);
    // 256 samples last 5333.33 us; the whole microseconds hold 255.98 samples.
    assert_eq!(calc.duration_to_samples(calc.samples_to_duration(256)), 255);
    assert_eq!(calc.duration_to_samples(Duration::from_millis(1)), 48);
}
