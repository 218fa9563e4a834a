use race_timer::detector::{DetectorState, EventKind, PeakEvent, HEARTBEAT_NANOS, THRESHOLD};

#[test]
fn new_detector_has_no_peak() {
    let d = DetectorState::new(42);
    assert_eq!(d.last_peak(), 0);
    assert_eq!(d.last_peak_time(), 42);
    assert_eq!(d.threshold(), 3);
    assert_eq!(THRESHOLD, 3);
    assert_eq!(HEARTBEAT_NANOS, 1_000_000_000);
}

#[test]
fn first_sample_only_records_itself() {
    let mut d = DetectorState::new(0);
    assert_eq!(d.observe(50, 7), None);
    assert_eq!(d.last_peak(), 50);
    assert_eq!(d.last_peak_time(), 7);
}

#[test]
fn samples_50_51_52_60_61() {
    let mut d = DetectorState::new(0);
    assert_eq!(d.observe(50, 100), None);
    assert_eq!(d.last_peak(), 50);
    assert_eq!(d.observe(51, 200), None);
    assert_eq!(d.observe(52, 300), None);
    assert_eq!(d.last_peak(), 50);
    assert_eq!(
        d.observe(60, 400),
        Some(PeakEvent { peak: 50, duration_ns: 300, kind: EventKind::Crossing })
    );
    assert_eq!(d.last_peak(), 60);
    assert_eq!(d.last_peak_time(), 400);
    assert_eq!(d.observe(61, 500), None);
    assert_eq!(d.last_peak(), 60);
    assert_eq!(d.last_peak_time(), 400);
}

#[test]
fn band_edges_are_inside() {
    let mut d = DetectorState::new(0);
    d.observe(50, 0);
    assert_eq!(d.observe(47, 1), None);
    assert_eq!(d.observe(53, 2), None);
    assert_eq!(d.last_peak(), 50);
    assert_eq!(
        d.observe(46, 3),
        Some(PeakEvent { peak: 50, duration_ns: 3, kind: EventKind::Crossing })
    );
    assert_eq!(d.last_peak(), 46);
    assert_eq!(
        d.observe(50, 5),
        Some(PeakEvent { peak: 46, duration_ns: 2, kind: EventKind::Crossing })
    );
}

#[test]
fn band_stops_at_zero_below() {
    let mut d = DetectorState::new(0);
    d.observe(2, 0);
    assert_eq!(d.observe(1, 1), None);
    assert_eq!(d.observe(5, 2), None);
    assert_eq!(
        d.observe(6, 3),
        Some(PeakEvent { peak: 2, duration_ns: 3, kind: EventKind::Crossing })
    );
}

#[test]
fn band_near_the_largest_sample() {
    let mut d = DetectorState::new(0);
    d.observe(u32::MAX - 1, 0);
    assert_eq!(d.observe(u32::MAX, 1), None);
    assert_eq!(d.observe(u32::MAX - 4, 2), None);
    assert_eq!(
        d.observe(u32::MAX - 5, 3),
        Some(PeakEvent { peak: u32::MAX - 1, duration_ns: 3, kind: EventKind::Crossing })
    );
}

#[test]
fn heartbeat_after_one_second_in_band() {
    let mut d = DetectorState::new(0);
    d.observe(50, 10);
    assert_eq!(d.observe(51, 10 + 999_999_999), None);
    assert_eq!(
        d.observe(51, 10 + 1_000_000_000),
        Some(PeakEvent { peak: 50, duration_ns: 1_000_000_000, kind: EventKind::Heartbeat })
    );
    assert_eq!(d.last_peak(), 50);
    assert_eq!(d.last_peak_time(), 1_000_000_010);
    assert_eq!(d.observe(51, 1_000_000_011), None);
}

#[test]
fn crossing_wins_over_heartbeat() {
    let mut d = DetectorState::new(0);
    d.observe(50, 0);
    assert_eq!(
        d.observe(90, 5_000_000_000),
        Some(PeakEvent { peak: 50, duration_ns: 5_000_000_000, kind: EventKind::Crossing })
    );
    assert_eq!(d.last_peak(), 90);
}

#[test]
fn clock_running_backwards_counts_as_no_time() {
    let mut d = DetectorState::new(0);
    d.observe(50, 1_000);
    assert_eq!(
        d.observe(60, 10),
        Some(PeakEvent { peak: 50, duration_ns: 0, kind: EventKind::Crossing })
    );
}

#[test]
fn zero_sample_leaves_detector_unset() {
    let mut d = DetectorState::new(0);
    assert_eq!(d.observe(0, 5), None);
    assert_eq!(d.last_peak(), 0);
    assert_eq!(d.observe(50, 6), None);
    assert_eq!(d.last_peak(), 50);
    assert_eq!(
        d.observe(0, 7),
        Some(PeakEvent { peak: 50, duration_ns: 1, kind: EventKind::Crossing })
    );
    assert_eq!(d.last_peak(), 0);
    assert_eq!(d.observe(80, 8), None);
    assert_eq!(d.last_peak(), 80);
}

#[test]
fn event_fires_exactly_outside_band_or_after_a_second() {
    let peaks: [u32; 4] = [1, 3, 50, 200];
    for &peak in peaks.iter() {
        for sample in 0u32..260 {
            for &gap in [0u64, 999_999_999, 1_000_000_000, 2_000_000_000].iter() {
                let mut d = DetectorState::new(0);
                d.observe(peak, 100);
                let event = d.observe(sample, 100 + gap);
                let outside = sample + 3 < peak || sample > peak + 3;
                let due = gap >= 1_000_000_000;
                assert_eq!(event.is_some(), outside || due);
            }
        }
    }
}
