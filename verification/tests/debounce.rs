use barterm::debounce::{SizeRecorder, SETTLE_DELAY_MS};

/// Runs resize events at the given times through a recorder, each with a
/// check the settle delay later, in the order of time; an event and a check
/// at the same time run event first. Returns the times of the checks that
/// write.
fn writes_of(times: &[u64]) -> Vec<u64> {
    let mut timeline: Vec<(u64, u8)> = Vec::new();
    for &t in times {
        timeline.push((t, 0));
        timeline.push((t + SETTLE_DELAY_MS, 1));
    }
    timeline.sort();
    let mut recorder = SizeRecorder::new(0);
    let mut writes = Vec::new();
    for (at, kind) in timeline {
        if kind == 0 {
            recorder.on_resize_event(at);
        } else if recorder.should_persist(at) {
            writes.push(at);
        }
    }
    writes
}

#[test]
fn settle_delay_is_500_ms() {
    assert_eq!(SETTLE_DELAY_MS, 500);
}

#[test]
fn a_burst_of_resize_events_writes_once_after_the_last() {
    let times = [1000, 1100, 1250, 1600, 2099, 2400];
    assert_eq!(writes_of(&times), vec![2900]);
}

#[test]
fn a_long_burst_writes_once() {
    let times: Vec<u64> = (0..200).map(|i| 10_000 + i * 499).collect();
    let last = *times.last().unwrap();
    assert_eq!(writes_of(&times), vec![last + 500]);
}

#[test]
fn a_single_resize_event_writes_once() {
    assert_eq!(writes_of(&[42]), vec![542]);
}

#[test]
fn two_events_600_ms_apart_write_twice() {
    assert_eq!(writes_of(&[1000, 1600]), vec![1500, 2100]);
}

#[test]
fn events_exactly_the_delay_apart_write_once() {
    assert_eq!(writes_of(&[1000, 1500]), vec![2000]);
}

#[test]
fn bursts_apart_write_once_each() {
    assert_eq!(writes_of(&[0, 100, 200, 5000, 5100, 9000]), vec![700, 5600, 9500]);
}

#[test]
fn check_writes_exactly_from_the_delay_on() {
    let mut recorder = SizeRecorder::new(0);
    recorder.on_resize_event(1000);
    assert_eq!(recorder.last_event(), 1000);
    assert!(!recorder.should_persist(1000));
    assert!(!recorder.should_persist(1499));
    assert!(recorder.should_persist(1500));
    assert!(recorder.should_persist(1501));
    assert!(recorder.should_persist(u64::MAX));
}

#[test]
fn a_newer_event_takes_over() {
    let mut recorder = SizeRecorder::new(0);
    recorder.on_resize_event(1000);
    recorder.on_resize_event(1400);
    assert_eq!(recorder.last_event(), 1400);
    assert!(!recorder.should_persist(1500));
    assert!(!recorder.should_persist(1899));
    assert!(recorder.should_persist(1900));
}

#[test]
fn a_clock_that_reads_earlier_than_the_event_counts_as_no_time_passed() {
    let mut recorder = SizeRecorder::new(0);
    recorder.on_resize_event(5000);
    assert!(!recorder.should_persist(0));
    assert!(!recorder.should_persist(4999));
}

#[test]
fn a_new_recorder_counts_its_creation_as_an_event() {
    let recorder = SizeRecorder::new(700);
    assert_eq!(recorder.last_event(), 700);
    assert!(!recorder.should_persist(1199));
    assert!(recorder.should_persist(1200));
}

#[test]
fn times_at_the_end_of_the_range() {
    let mut recorder = SizeRecorder::new(0);
    recorder.on_resize_event(u64::MAX - 499);
    assert!(!recorder.should_persist(u64::MAX));
    recorder.on_resize_event(u64::MAX - 500);
    assert!(recorder.should_persist(u64::MAX));
}

#[test]
fn checks_that_run_a_little_late_still_write_once() {
    let mut recorder = SizeRecorder::new(0);
    recorder.on_resize_event(1000);
    recorder.on_resize_event(1100);
    // the first event's check, due at 1500, runs at 1550
    assert!(!recorder.should_persist(1550));
    // the second event's check, due at 1600, runs at 1675
    assert!(recorder.should_persist(1675));
}

#[test]
fn a_check_made_after_the_quiet_period_writes_whichever_event_scheduled_it() {
    let mut recorder = SizeRecorder::new(0);
    recorder.on_resize_event(1000);
    recorder.on_resize_event(1100);
    assert!(recorder.should_persist(1600));
    assert!(recorder.should_persist(1700));
}
