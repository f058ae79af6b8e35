use wordclock::buttons::rising_edge;
use wordclock::channel::{SampleQueue, SharedState};
use wordclock::radio::Receiver;
use wordclock::sync::{process_samples, reconcile_cycle, reconcile_rtc, rtc_update_due};
use wordclock::time::Time;

fn at(hour: u8, min: u8) -> Time {
    Time { sec: 0, min, hour, day: 7, month: 6, year: 2021 }
}

/// Builds a raw frame word with the given bit positions set.
fn frame(bits: &[u64]) -> u64 {
    let mut raw = 0u64;
    for b in bits {
        raw |= 1u64 << b;
    }
    raw
}

/// The receiver-line waveform of one full transmission of `raw`: per
/// bit one second of 10 ms samples (100 ms high, then 100 ms high for a
/// one or low for a zero, then quiet), and the long end-of-minute gap.
fn signal_for(raw: u64) -> Vec<bool> {
    let mut samples = Vec::new();
    for bit in 0..59u64 {
        for _ in 0..10 {
            samples.push(true);
        }
        let level = raw & (1 << bit) != 0;
        for _ in 0..10 {
            samples.push(level);
        }
        for _ in 0..80 {
            samples.push(false);
        }
    }
    // The missing 60th second: silence long enough to mark the cycle end.
    for _ in 0..250 {
        samples.push(false);
    }
    samples
}

#[test]
fn matching_consecutive_decodes_commit_to_rtc() {
    let prev = at(14, 25);
    let fresh = prev.inc_minutes();
    let out = reconcile_cycle(&prev, &Ok(fresh));
    assert_eq!(out.accepted, fresh);
    assert_eq!(out.rtc_write, Some(fresh));
    assert_eq!(out.sync_led, Some(true));
}

#[test]
fn mismatching_decode_is_adopted_but_not_committed() {
    let prev = at(14, 25);
    let fresh = at(9, 3);
    let out = reconcile_cycle(&prev, &Ok(fresh));
    assert_eq!(out.accepted, fresh);
    assert_eq!(out.rtc_write, None);
    assert_eq!(out.sync_led, Some(false));
}

#[test]
fn failed_decode_changes_nothing() {
    let prev = at(14, 25);
    let out = reconcile_cycle(&prev, &Err(()));
    assert_eq!(out.accepted, prev);
    assert_eq!(out.rtc_write, None);
    assert_eq!(out.sync_led, None);
}

#[test]
fn long_low_signal_cycle_is_discarded() {
    // A silent line for two seconds of samples reaches the end-of-cycle
    // gap; the all-zero frame fails the calendar-range checks (day and
    // month zero), so the cycle is discarded: nothing is adopted, nothing
    // is written, and the indicator is left untouched.
    let mut receiver = Receiver::new();
    let mut accepted = Time::default();
    let samples = vec![false; 200];
    let report = process_samples(&mut receiver, &mut accepted, &samples);
    assert_eq!(report.sync_led, None);
    assert!(report.rtc_writes.is_empty());
    assert_eq!(accepted, Time::default());
}

#[test]
fn no_cycle_no_report() {
    let mut receiver = Receiver::new();
    let mut accepted = at(8, 15);
    let samples = vec![false; 10];
    let report = process_samples(&mut receiver, &mut accepted, &samples);
    assert_eq!(report.sync_led, None);
    assert!(report.rtc_writes.is_empty());
    assert_eq!(accepted, at(8, 15));
}

#[test]
fn two_matching_transmissions_commit_once() {
    // 14:25 on 2021-06-07, then 14:26: the second decode matches the
    // prediction from the first, so only the second is committed.
    let first = frame(&[21, 23, 26, 28, 31, 33, 36, 37, 38, 46, 47, 50, 55]);
    let second = frame(&[22, 23, 26, 28, 31, 33, 36, 37, 38, 46, 47, 50, 55]);
    let mut receiver = Receiver::new();
    let mut accepted = Time::default();

    let report1 = process_samples(&mut receiver, &mut accepted, &signal_for(first));
    assert_eq!(accepted, at(14, 25));
    assert_eq!(report1.sync_led, Some(false));
    assert!(report1.rtc_writes.is_empty());

    let report2 = process_samples(&mut receiver, &mut accepted, &signal_for(second));
    assert_eq!(accepted, at(14, 26));
    assert_eq!(report2.sync_led, Some(true));
    assert_eq!(report2.rtc_writes, vec![at(14, 26)]);
}

#[test]
fn rtc_read_is_adopted_and_phase_aligns_seconds() {
    let current = at(10, 30);
    let fresh = Time { sec: 41, min: 31, hour: 10, day: 7, month: 6, year: 2021 };
    let out = reconcile_rtc(&current, &Ok(fresh));
    assert_eq!(out.time, fresh);
    assert_eq!(out.seconds_reset, 41);
}

#[test]
fn failed_rtc_read_falls_back_to_minute_increment() {
    let current = at(10, 59);
    let out = reconcile_rtc(&current, &Err(()));
    assert_eq!(out.time, at(11, 0));
    assert_eq!(out.seconds_reset, 0);
}

#[test]
fn update_due_at_sixty_seconds() {
    assert!(!rtc_update_due(0));
    assert!(!rtc_update_due(59));
    assert!(rtc_update_due(60));
    assert!(rtc_update_due(61));
}

#[test]
fn sample_queue_drops_when_full() {
    let mut q = SampleQueue::new();
    for i in 0..10 {
        q.push(i % 2 == 0);
    }
    q.push(true);  // queue is full: dropped
    let drained = q.take_all();
    assert_eq!(drained.len(), 10);
    for (i, s) in drained.iter().enumerate() {
        assert_eq!(*s, i % 2 == 0);
    }
    assert!(q.take_all().is_empty());
}

#[test]
fn millisecond_ticker_samples_every_tenth_call() {
    let mut s = SharedState::new();
    for _ in 0..30 {
        s.millisecond_tick(true);
    }
    assert_eq!(s.millis, 30);
    let drained = s.samples.take_all();
    assert_eq!(drained, vec![true, true, true]);
    assert!(s.radio_level_led);
}

#[test]
fn millisecond_ticker_mirrors_radio_level() {
    let mut s = SharedState::new();
    s.millisecond_tick(false);
    assert!(!s.radio_level_led);
    // Phases 1..=9: the level is not sampled again.
    for _ in 0..9 {
        s.millisecond_tick(true);
        assert!(!s.radio_level_led);
    }
    // Phase 0 again: sampled.
    s.millisecond_tick(true);
    assert!(s.radio_level_led);
}

#[test]
fn second_ticker_counts_and_toggles() {
    let mut s = SharedState::new();
    let start = s.seconds;
    s.second_tick();
    assert_eq!(s.seconds, start + 1);
    assert!(s.heartbeat_led);
    s.second_tick();
    assert_eq!(s.seconds, start + 2);
    assert!(!s.heartbeat_led);
}

#[test]
fn edge_dispatch_fires_once_while_held() {
    let mut stored = false;
    let mut fires = 0;
    for _ in 0..3 {
        if rising_edge(&mut stored, true) {
            fires += 1;
        }
    }
    assert_eq!(fires, 1);
    // Release and press again: exactly one more fire.
    assert!(!rising_edge(&mut stored, false));
    assert!(rising_edge(&mut stored, true));
    assert!(!rising_edge(&mut stored, true));
}
