//! Latency measurement: conversions between sample counts and time, and
//! callback timing statistics.

use vstd::prelude::*;
use std::sync::atomic::{AtomicU64, Ordering};
use std::time::{Duration, Instant};
use crate::time::{duration_as_nanos, duration_from_micros, duration_nanos, instant_elapsed, instant_now};

verus! {

/// Converts between sample counts and time at a sample rate.
#[derive(Debug, Clone, Copy)]
pub struct LatencyCalculator {
    sample_rate: u32,
}

/// Microseconds that `samples` samples last at `rate` Hz, rounded down.
pub open spec fn samples_to_micros_spec(samples: u32, rate: u32) -> int {
    (samples as int * 1_000_000) / rate as int
}

/// Samples that `micros` microseconds hold at `rate` Hz, rounded down; the
/// product is taken modulo 2^64, as the 64-bit multiplication wraps.
pub open spec fn micros_to_samples_spec(micros: u64, rate: u32) -> int {
    ((micros as int * rate as int) % 0x1_0000_0000_0000_0000) / 1_000_000
}

impl LatencyCalculator {
    /// The sample rate.
    pub closed spec fn rate(&self) -> u32 {
        self.sample_rate
    }

    /// Creates a new latency calculator.
    pub fn new(sample_rate: u32) -> (r: Self)
        ensures
            r.rate() == sample_rate,
    {
        LatencyCalculator { sample_rate }
    }

    /// The sample rate, in Hz.
    pub fn sample_rate(&self) -> (r: u32)
        ensures
            r == self.rate(),
    {
        self.sample_rate
    }

    /// Microseconds that `samples` samples last, rounded down.
    pub fn samples_to_micros(&self, samples: u32) -> (r: u64)
        requires
            self.rate() > 0,
        ensures
            r == samples_to_micros_spec(samples, self.rate()),
    {
        let num: u64 = samples as u64 * 1_000_000;
        num / self.sample_rate as u64
    }

    /// Converts samples to duration (whole microseconds).
    pub fn samples_to_duration(&self, samples: u32) -> (r: Duration)
        requires
            self.rate() > 0,
        ensures
            duration_nanos(r) == samples_to_micros_spec(samples, self.rate()) * 1000,
    {
        duration_from_micros(self.samples_to_micros(samples))
    }

    /// Samples that `micros` microseconds hold, rounded down and truncated
    /// to 32 bits.
    pub fn micros_to_samples(&self, micros: u64) -> (r: u32)
        ensures
            r == micros_to_samples_spec(micros, self.rate()) as u32,
    {
        let prod: u64 = micros.wrapping_mul(self.sample_rate as u64);
        #[verifier::truncate]
        ((prod / 1_000_000) as u32)
    }

    /// Converts duration to samples: its whole microseconds, truncated to
    /// 64 bits, converted as [`Self::micros_to_samples`] does.
    pub fn duration_to_samples(&self, duration: Duration) -> (r: u32)
        ensures
            r == micros_to_samples_spec((duration_nanos(duration) / 1000) as u64, self.rate()) as u32,
    {
        let nanos = duration_as_nanos(duration);
        let micros_wide = nanos / 1000;
        #[verifier::truncate]
        let micros = micros_wide as u64;
        self.micros_to_samples(micros)
    }
}

/// Converting a count of samples to a duration and back never gives more
/// samples than there were, and at rates up to 1 MHz loses at most one.
pub proof fn law_samples_duration_roundtrip(samples: u32, rate: u32)
    requires
        rate > 0,
    ensures
        ({
            let micros = samples_to_micros_spec(samples, rate);
            let back = micros_to_samples_spec(micros as u64, rate);
            &&& 0 <= micros <= u64::MAX
            &&& back <= samples
            &&& rate <= 1_000_000 ==> back + 1 >= samples
        }),
{
    let n: int = samples as int * 1_000_000;
    let r: int = rate as int;
    let micros: int = n / r;
    assert(0 <= micros && micros * r <= n && n < micros * r + r) by (nonlinear_arith)
        requires
            n >= 0,
            r > 0,
            micros == n / r,
    ;
    assert(n < 0x1_0000_0000_0000_0000) by (nonlinear_arith)
        requires
            n == samples as int * 1_000_000,
            samples <= 0xffff_ffff,
    ;
    assert(micros <= n) by (nonlinear_arith)
        requires
            micros * r <= n,
            r >= 1,
            micros >= 0,
    ;
    let prod: int = micros * r;
    assert(prod % 0x1_0000_0000_0000_0000 == prod) by {
        vstd::arithmetic::div_mod::lemma_small_mod(prod as nat, 0x1_0000_0000_0000_0000);
    }
    let back: int = prod / 1_000_000;
    assert(back <= samples && (r <= 1_000_000 ==> back + 1 >= samples)) by (nonlinear_arith)
        requires
            back == prod / 1_000_000,
            prod <= n,
            n < prod + r,
            n == samples as int * 1_000_000,
            prod >= 0,
    ;
}

impl Default for LatencyCalculator {
    fn default() -> (r: Self)
        ensures
            r.rate() == 48000,
    {
        Self::new(48000)
    }
}


/// Timing statistics from a callback timer.
#[derive(Debug, Clone, Copy, Default)]
pub struct TimingStats {
    /// Number of callbacks processed.
    pub callback_count: u64,
    /// Expected callback interval in microseconds.
    pub expected_interval_us: u32,
    /// Average callback interval in microseconds.
    pub avg_interval_us: u32,
    /// Minimum callback interval in microseconds.
    pub min_interval_us: u32,
    /// Maximum callback interval in microseconds.
    pub max_interval_us: u32,
    /// Jitter (max - min) in microseconds.
    pub jitter_us: u32,
}

impl TimingStats {
    /// Whether timing is stable: jitter below a tenth of the expected
    /// interval. With no expected interval the jitter counts as none, so
    /// timing is stable.
    pub fn is_stable(&self) -> (r: bool)
        ensures
            r == (self.expected_interval_us == 0 || 10 * (self.jitter_us as int) < self.expected_interval_us as int),
    {
        self.expected_interval_us == 0 || (self.jitter_us as u64) * 10 < self.expected_interval_us as u64
    }
}

/// The statistics that the counters of a callback timer give: the average
/// of the `count - 1` intervals (the expected interval before there are
/// any), the spread between the longest and shortest interval, all in
/// whole microseconds truncated to 32 bits. A minimum still at `u64::MAX`
/// means no interval was seen.
pub open spec fn timing_stats_spec(count: u64, min_ns: u64, max_ns: u64, sum_ns: u64, expected_ns: u64) -> TimingStats {
    let avg_ns: u64 = if count > 1 { (sum_ns / (count - 1) as u64) as u64 } else { expected_ns };
    let jitter_ns: u64 = if min_ns < u64::MAX { if max_ns >= min_ns { (max_ns - min_ns) as u64 } else { 0 } } else { 0 };
    TimingStats {
        callback_count: count,
        expected_interval_us: (expected_ns / 1000) as u32,
        avg_interval_us: (avg_ns / 1000) as u32,
        min_interval_us: if min_ns < u64::MAX { (min_ns / 1000) as u32 } else { 0 },
        max_interval_us: (max_ns / 1000) as u32,
        jitter_us: (jitter_ns / 1000) as u32,
    }
}

/// Computes timing statistics from a callback timer's counters.
pub fn timing_stats_from(count: u64, min_ns: u64, max_ns: u64, sum_ns: u64, expected_ns: u64) -> (r: TimingStats)
    ensures
        r == timing_stats_spec(count, min_ns, max_ns, sum_ns, expected_ns),
{
    let avg_ns: u64 = if count > 1 { sum_ns / (count - 1) } else { expected_ns };
    let jitter_ns: u64 = if min_ns < u64::MAX { max_ns.saturating_sub(min_ns) } else { 0 };
    #[verifier::truncate]
    let expected_interval_us = (expected_ns / 1000) as u32;
    #[verifier::truncate]
    let avg_interval_us = (avg_ns / 1000) as u32;
    #[verifier::truncate]
    let min_us = (min_ns / 1000) as u32;
    #[verifier::truncate]
    let max_interval_us = (max_ns / 1000) as u32;
    #[verifier::truncate]
    let jitter_us = (jitter_ns / 1000) as u32;
    TimingStats {
        callback_count: count,
        expected_interval_us,
        avg_interval_us,
        min_interval_us: if min_ns < u64::MAX { min_us } else { 0 },
        max_interval_us,
        jitter_us,
    }
}

/// The counters of a callback timer: the time of the first and of the
/// latest callback (0 before any), the number of callbacks, and the sum,
/// least and greatest of the intervals between callbacks, in nanoseconds.
#[derive(Debug, Clone, Copy)]
pub struct TimerCounters {
    /// Time of the first callback, 0 before any.
    pub first_ns: u64,
    /// Time of the latest callback, 0 before any.
    pub last_ns: u64,
    /// Number of callbacks.
    pub count: u64,
    /// Sum of the intervals.
    pub sum_ns: u64,
    /// Least interval, `u64::MAX` before any.
    pub min_ns: u64,
    /// Greatest interval, 0 before any.
    pub max_ns: u64,
}

/// The counters after a callback at `now_ns`: it becomes the latest (and
/// the first, if there was none) and is counted; where there was an earlier
/// callback, the interval since it (0 if the clock reads earlier) is added
/// to the sum and taken into the least and greatest. The count and the sum
/// wrap.
pub open spec fn record_spec(c: TimerCounters, now_ns: u64) -> TimerCounters {
    let interval: u64 = if now_ns >= c.last_ns { (now_ns - c.last_ns) as u64 } else { 0 };
    let seen = c.last_ns > 0;
    TimerCounters {
        first_ns: if c.first_ns == 0 { now_ns } else { c.first_ns },
        last_ns: now_ns,
        count: c.count.wrapping_add(1),
        sum_ns: if seen { c.sum_ns.wrapping_add(interval) } else { c.sum_ns },
        min_ns: if seen && interval < c.min_ns { interval } else { c.min_ns },
        max_ns: if seen && interval > c.max_ns { interval } else { c.max_ns },
    }
}

/// The counters after a callback at `now_ns`.
pub fn record_step(c: TimerCounters, now_ns: u64) -> (r: TimerCounters)
    ensures
        r == record_spec(c, now_ns),
{
    let mut r = c;
    if c.first_ns == 0 {
        r.first_ns = now_ns;
    }
    r.last_ns = now_ns;
    if c.last_ns > 0 {
        let interval = now_ns.saturating_sub(c.last_ns);
        r.sum_ns = c.sum_ns.wrapping_add(interval);
        if interval < c.min_ns {
            r.min_ns = interval;
        }
        if interval > c.max_ns {
            r.max_ns = interval;
        }
    }
    r.count = c.count.wrapping_add(1);
    r
}

/// Whether counters are as recording leaves them: before any callback, at
/// their starting values; after one, still without an interval; after
/// `n + 1`, the `n` intervals' sum lies between `n` times the least and
/// `n` times the greatest.
pub open spec fn counters_consistent(c: TimerCounters) -> bool {
    if c.count == 0 {
        c.last_ns == 0 && c.sum_ns == 0 && c.min_ns == u64::MAX && c.max_ns == 0
    } else {
        &&& c.last_ns > 0
        &&& c.count == 1 ==> c.sum_ns == 0 && c.min_ns == u64::MAX && c.max_ns == 0
        &&& c.count >= 2 ==> c.min_ns <= c.max_ns && (c.count - 1) * c.min_ns <= c.sum_ns && c.sum_ns <= (c.count - 1)
            * c.max_ns
    }
}

/// Recording a callback counts it and keeps the counters consistent, where
/// the clock reads after the start, does not go back, and neither the
/// count nor the sum wraps.
pub proof fn law_record_keeps_counters_consistent(c: TimerCounters, now_ns: u64)
    requires
        counters_consistent(c),
        now_ns > 0,
        now_ns >= c.last_ns,
        c.count < u64::MAX,
        c.sum_ns + (now_ns - c.last_ns) <= u64::MAX,
    ensures
        record_spec(c, now_ns).count == c.count + 1,
        counters_consistent(record_spec(c, now_ns)),
{
    let r = record_spec(c, now_ns);
    let i = (now_ns - c.last_ns) as int;
    assert(r.count == c.count + 1);
    if c.count >= 2 {
        let n = (c.count - 1) as int;
        let lo = c.min_ns as int;
        let hi = c.max_ns as int;
        let s = c.sum_ns as int;
        assert(r.sum_ns == s + i);
        assert((n + 1) * (r.min_ns as int) <= s + i) by (nonlinear_arith)
            requires
                n * lo <= s,
                r.min_ns as int == if i < lo { i } else { lo },
                n >= 1,
                i >= 0,
        ;
        assert(s + i <= (n + 1) * (r.max_ns as int)) by (nonlinear_arith)
            requires
                s <= n * hi,
                r.max_ns as int == if i > hi { i } else { hi },
                n >= 1,
        ;
    }
}

/// With consistent counters after at least two callbacks, and intervals
/// short enough for their microseconds to fit 32 bits, the average
/// interval the statistics give lies between the least and the greatest.
pub proof fn law_average_between_extremes(c: TimerCounters, expected_ns: u64)
    requires
        counters_consistent(c),
        c.count >= 2,
        c.max_ns < 1000 * 0x1_0000_0000,
    ensures
        ({
            let s = timing_stats_spec(c.count, c.min_ns, c.max_ns, c.sum_ns, expected_ns);
            s.min_interval_us <= s.avg_interval_us && s.avg_interval_us <= s.max_interval_us
        }),
{
    let n = (c.count - 1) as int;
    let lo = c.min_ns as int;
    let hi = c.max_ns as int;
    let sum = c.sum_ns as int;
    vstd::arithmetic::div_mod::lemma_div_is_ordered(n * lo, sum, n);
    vstd::arithmetic::div_mod::lemma_div_multiples_vanish(lo, n);
    vstd::arithmetic::div_mod::lemma_div_is_ordered(sum, n * hi, n);
    vstd::arithmetic::div_mod::lemma_div_multiples_vanish(hi, n);
    let avg = sum / n;
    assert(lo <= avg <= hi);
    assert(c.sum_ns / (c.count - 1) as u64 == avg);
    vstd::arithmetic::div_mod::lemma_div_is_ordered(lo, avg, 1000);
    vstd::arithmetic::div_mod::lemma_div_is_ordered(avg, hi, 1000);
    assert(hi / 1000 < 0x1_0000_0000);
}

/// Tracks callback timing for jitter analysis: [`TimerCounters`] kept in
/// atomics, which the audio callback advances with [`record_step`] and
/// other threads read without locking.
///
/// Other threads may store the counters (a reset) at any time, so what a
/// read returns is not stated beyond how it is computed.
#[derive(Debug)]
pub struct CallbackTimer {
    origin: Instant,
    first_callback_ns: AtomicU64,
    last_callback_ns: AtomicU64,
    callback_count: AtomicU64,
    interval_sum_ns: AtomicU64,
    min_interval_ns: AtomicU64,
    max_interval_ns: AtomicU64,
    expected_interval_ns: u64,
}

impl CallbackTimer {
    /// The interval between callbacks that the buffer size and rate imply.
    pub closed spec fn expected_ns(&self) -> u64 {
        self.expected_interval_ns
    }

    /// Creates a new callback timer for callbacks of `buffer_size` samples
    /// at `sample_rate` Hz.
    pub fn new(buffer_size: u32, sample_rate: u32) -> (r: Self)
        requires
            sample_rate > 0,
        ensures
            r.expected_ns() == (buffer_size as int * 1_000_000_000) / sample_rate as int,
    {
        let expected_interval_ns: u64 = (buffer_size as u64 * 1_000_000_000) / sample_rate as u64;
        CallbackTimer {
            origin: instant_now(),
            first_callback_ns: AtomicU64::new(0),
            last_callback_ns: AtomicU64::new(0),
            callback_count: AtomicU64::new(0),
            interval_sum_ns: AtomicU64::new(0),
            min_interval_ns: AtomicU64::new(u64::MAX),
            max_interval_ns: AtomicU64::new(0),
            expected_interval_ns,
        }
    }

    /// Nanoseconds since the timer was created, truncated to 64 bits.
    fn now_ns(&self) -> (r: u64) {
        let nanos = duration_as_nanos(instant_elapsed(&self.origin));
        #[verifier::truncate]
        let r = nanos as u64;
        r
    }

    /// Records a callback invocation: call at the start of each callback,
    /// from the one thread that runs the callbacks. The counters are read,
    /// advanced by [`record_step`] with the clock's reading, and stored.
    pub fn record(&self) {
        let now_ns = self.now_ns();
        let before = TimerCounters {
            first_ns: self.first_callback_ns.load(Ordering::Acquire),
            last_ns: self.last_callback_ns.load(Ordering::Acquire),
            count: self.callback_count.load(Ordering::Relaxed),
            sum_ns: self.interval_sum_ns.load(Ordering::Relaxed),
            min_ns: self.min_interval_ns.load(Ordering::Relaxed),
            max_ns: self.max_interval_ns.load(Ordering::Relaxed),
        };
        let after = record_step(before, now_ns);
        self.first_callback_ns.store(after.first_ns, Ordering::Release);
        self.last_callback_ns.store(after.last_ns, Ordering::Release);
        self.interval_sum_ns.store(after.sum_ns, Ordering::Relaxed);
        self.min_interval_ns.store(after.min_ns, Ordering::Relaxed);
        self.max_interval_ns.store(after.max_ns, Ordering::Relaxed);
        self.callback_count.store(after.count, Ordering::Relaxed);
    }

    /// Gets timing statistics.
    pub fn stats(&self) -> (r: TimingStats)
        ensures
            exists|count: u64, min_ns: u64, max_ns: u64, sum_ns: u64|
                r == #[trigger] timing_stats_spec(count, min_ns, max_ns, sum_ns, self.expected_ns()),
    {
        let count = self.callback_count.load(Ordering::Relaxed);
        let min_ns = self.min_interval_ns.load(Ordering::Relaxed);
        let max_ns = self.max_interval_ns.load(Ordering::Relaxed);
        let sum_ns = self.interval_sum_ns.load(Ordering::Relaxed);
        let r = timing_stats_from(count, min_ns, max_ns, sum_ns, self.expected_interval_ns);
        assert(r == timing_stats_spec(count, min_ns, max_ns, sum_ns, self.expected_ns()));
        r
    }

    /// Resets all statistics.
    pub fn reset(&self) {
        self.first_callback_ns.store(0, Ordering::SeqCst);
        self.last_callback_ns.store(0, Ordering::SeqCst);
        self.callback_count.store(0, Ordering::Relaxed);
        self.interval_sum_ns.store(0, Ordering::Relaxed);
        self.min_interval_ns.store(u64::MAX, Ordering::Relaxed);
        self.max_interval_ns.store(0, Ordering::Relaxed);
    }
}

} // verus!
