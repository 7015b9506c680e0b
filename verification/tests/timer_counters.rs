use ram::latency::{record_step, timing_stats_from, TimerCounters};
use ram::metering::MeterBank;
use ram::resampler::{check_process_channels, is_identity, resampler_plan, ResamplerKind};

fn fresh() -> TimerCounters {
    TimerCounters { first_ns: 0, last_ns: 0, count: 0, sum_ns: 0, min_ns: u64::MAX, max_ns: 0 }
}

#[test]
fn first_callback_records_no_interval() {
    let c = record_step(fresh(), 1_000);
    assert_eq!(c.first_ns, 1_000);
    assert_eq!(c.last_ns, 1_000);
    assert_eq!(c.count, 1);
    assert_eq!(c.sum_ns, 0);
    assert_eq!(c.min_ns, u64::MAX);
    assert_eq!(c.max_ns, 0);
}

#[test]
fn later_callbacks_fold_intervals() {
    let c = record_step(fresh(), 1_000);
    let c = record_step(c, 6_000);
    let c = record_step(c, 8_000);
    assert_eq!(c.first_ns, 1_000);
    assert_eq!(c.last_ns, 8_000);
    assert_eq!(c.count, 3);
    assert_eq!(c.sum_ns, 7_000);
    assert_eq!(c.min_ns, 2_000);
    assert_eq!(c.max_ns, 5_000);
    // A clock reading earlier than the last counts as no time at all.
    let c = record_step(c, 7_000);
    assert_eq!(c.min_ns, 0);
    assert_eq!(c.sum_ns, 7_000);
}

#[test]
fn meter_bank_has_a_meter_per_channel() {
    let bank = MeterBank::new(3);
    assert_eq!(bank.channel_count(), 3);
    assert!(bank.get(2).is_some());
    assert!(bank.get(3).is_none());
}

#[test]
fn resampler_decisions() {
    assert!(resampler_plan(48000, 44100, 0).is_err());
    assert!(matches!(resampler_plan(44100, 48000, 2), Ok(ResamplerKind::FixedIn)));
    assert!(matches!(resampler_plan(48000, 48000, 2), Ok(ResamplerKind::FixedIn)));
    assert!(matches!(resampler_plan(48000, 44100, 2), Ok(ResamplerKind::FixedOut)));
    assert!(check_process_channels(2, 2, 2).is_ok());
    match check_process_channels(2, 1, 2) {
        Err(e) => assert_eq!(e.message(), "invalid channel count: 1 (max: 256)"),
        Ok(()) => panic!("expected a refusal"),
    }
    assert!(is_identity(48000, 48000));
    assert!(!is_identity(44100, 48000));
}

#[test]
fn average_interval_lies_between_extremes() {
    let mut c = fresh();
    for now in [1_000_000u64, 6_000_000, 8_500_000, 12_000_000] {
        c = record_step(c, now);
    }
    let s = timing_stats_from(c.count, c.min_ns, c.max_ns, c.sum_ns, 5_333_333);
    assert_eq!(s.callback_count, 4);
    assert_eq!(s.min_interval_us, 2_500);
    assert_eq!(s.max_interval_us, 5_000);
    assert_eq!(s.avg_interval_us, 3_666);
    assert!(s.min_interval_us <= s.avg_interval_us && s.avg_interval_us <= s.max_interval_us);
    assert_eq!(s.expected_interval_us, 5_333);
}
