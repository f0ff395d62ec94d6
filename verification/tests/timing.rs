use nexus::timing::adaptive::{AdaptiveTimer, Phase};
use nexus::timing::system_time::{iso8601_from_millis, now_iso8601, now_millis, now_nanos, now_secs};
use nexus::timing::{Deadline, DriftCorrectedTimer, HeartbeatTimer, Timestamp};
use std::time::Duration;

#[test]
fn test_timestamp_operations() {
    let t1 = Timestamp::from_millis(100);
    let t2 = Timestamp::from_millis(200);

    assert_eq!(t2.as_millis(), 200);
    assert_eq!(t2.as_secs(), 0);
    assert_eq!(t2.subsec_millis(), 200);

    let diff = t2 - t1;
    assert_eq!(diff, Duration::from_millis(100));

    let t3 = t1 + Duration::from_millis(50);
    assert_eq!(t3.as_millis(), 150);
}

#[test]
fn test_adaptive_timer() {
    let mut timer = AdaptiveTimer::new(Duration::from_millis(500)).with_phase_intervals(200, 500, 150);

    timer.set_phase(Phase::Starting);
    assert_eq!(timer.current_interval(), Duration::from_millis(200));

    timer.set_phase(Phase::Executing);
    assert_eq!(timer.current_interval(), Duration::from_millis(500));

    timer.set_phase(Phase::Completing);
    assert_eq!(timer.current_interval(), Duration::from_millis(150));
}

#[test]
fn test_system_time() {
    let nanos = now_nanos();
    let millis = now_millis();
    let secs = now_secs();

    assert!(nanos > 0);
    assert!(millis > 0);
    assert!(secs > 0);
    assert!(nanos / 1_000_000 >= millis.saturating_sub(1));
}

#[test]
fn timestamp_text_and_saturation() {
    assert_eq!(Timestamp::from_millis(1500).to_display_string(), "1.500s");
    assert_eq!(Timestamp::from_millis(250).to_display_string(), "250ms");
    let late = Timestamp::from_nanos(u64::MAX - 1);
    assert_eq!((late + Duration::from_secs(1)).as_nanos(), u64::MAX);
    assert_eq!((Timestamp::from_nanos(5) - Duration::from_secs(1)).as_nanos(), 0);
    assert_eq!(Timestamp::from_millis(1) - Timestamp::from_millis(2), Duration::ZERO);
}

#[test]
fn drift_corrected_timer_fires_and_corrects_lateness() {
    let mut timer = DriftCorrectedTimer::new(Duration::from_millis(50));
    assert!(!timer.tick(Timestamp::from_millis(100)));
    timer.start(Timestamp::from_millis(0));
    assert!(!timer.tick(Timestamp::from_millis(40)));
    assert!(timer.tick(Timestamp::from_millis(60)));
    assert_eq!(timer.tick_count(), 1);
    // 10ms late: the next interval is shortened by a tenth of the drift.
    assert_eq!(timer.drift(), Duration::from_millis(10));
    assert_eq!(timer.next_fire(), Timestamp::from_millis(109));
    assert_eq!(timer.remaining(Timestamp::from_millis(100)), Duration::from_millis(9));
}

#[test]
fn heartbeat_timer_detects_stall() {
    let mut heartbeat = HeartbeatTimer::new(Duration::from_millis(100), 0);
    assert!(!heartbeat.is_stalled(Duration::from_millis(100), 50_000_000));
    assert!(heartbeat.is_active());
    assert!(heartbeat.is_stalled(Duration::from_millis(100), 150_000_000));
    heartbeat.beat(150_000_000);
    assert!(!heartbeat.is_stalled(Duration::from_millis(100), 160_000_000));
    assert_eq!(heartbeat.millis_since_beat(160_000_000), 10);
}

#[test]
fn deadline_expires_and_formats() {
    let start = Timestamp::from_millis(1000);
    let deadline = Deadline::from_now(Duration::from_millis(100), start);
    let mid = Timestamp::from_millis(1040);
    assert!(!deadline.is_expired(mid));
    assert_eq!(deadline.remaining(mid), Duration::from_millis(60));
    assert_eq!(deadline.format(mid), "60ms remaining");
    let after = Timestamp::from_millis(1110);
    assert!(deadline.is_expired(after));
    assert_eq!(deadline.remaining(after), Duration::ZERO);
    assert_eq!(deadline.format(after), "expired");
}

#[test]
fn adaptive_timer_enters_stalled_after_three_idle_cycles() {
    let mut timer = AdaptiveTimer::new(Duration::from_millis(500));
    timer.set_phase(Phase::Executing);
    assert!(!timer.record_progress(true));
    assert!(!timer.record_progress(true));
    assert!(!timer.record_progress(false));
    assert!(!timer.record_progress(true));
    assert!(!timer.record_progress(true));
    assert_eq!(timer.stall_count(), 2);
    assert!(timer.record_progress(true));
    assert_eq!(timer.stall_count(), 3);
    assert_eq!(timer.phase(), Phase::Stalled);
    assert_eq!(timer.current_interval(), Duration::from_millis(100));
    timer.reset(Timestamp::from_millis(0));
    assert_eq!(timer.phase(), Phase::Starting);
}

#[test]
fn phase_names() {
    assert_eq!(Phase::Starting.to_display_string(), "STARTING");
    assert_eq!(Phase::Stalled.to_display_string(), "STALLED");
    assert_eq!(Phase::default(), Phase::Starting);
}

#[test]
fn iso8601_text_of_known_instants() {
    assert_eq!(iso8601_from_millis(0), "1970-01-01T00:00:00.000Z");
    assert_eq!(iso8601_from_millis(90_061_001), "1970-01-02T01:01:01.001Z");
    assert_eq!(iso8601_from_millis(31_536_000_000), "1971-01-01T00:00:00.000Z");
    assert_eq!(iso8601_from_millis(951_782_400_000), "2000-02-29T00:00:00.000Z");
    assert_eq!(iso8601_from_millis(1_709_164_800_000), "2024-02-29T00:00:00.000Z");
    assert_eq!(iso8601_from_millis(1_700_000_000_123), "2023-11-14T22:13:20.123Z");
    assert_eq!(iso8601_from_millis(4_102_444_799_999), "2099-12-31T23:59:59.999Z");
    assert_eq!(iso8601_from_millis(253_402_300_799_999), "9999-12-31T23:59:59.999Z");
    assert_eq!(iso8601_from_millis(253_402_300_800_000), "10000-01-01T00:00:00.000Z");
    assert_eq!(iso8601_from_millis(u64::MAX), "584556019-04-03T14:25:51.615Z");
    assert_eq!(now_iso8601().len(), 24);
}

#[test]
fn drift_corrected_timer_tick_fits_until_the_clock_runs_out() {
    let mut timer = DriftCorrectedTimer::new(Duration::from_millis(50));
    assert!(timer.tick_fits(Timestamp::from_millis(100)));
    timer.start(Timestamp::from_millis(0));
    assert!(timer.tick_fits(Timestamp::from_millis(10)));
    assert!(timer.tick_fits(Timestamp::from_millis(60)));
    assert!(!timer.tick_fits(Timestamp::from_nanos(u64::MAX)));
}

#[test]
fn heartbeat_counts_beats_since_creation() {
    let mut heartbeat = HeartbeatTimer::new(Duration::from_secs(1), 0);
    assert_eq!(heartbeat.beat_count(), 0);
    heartbeat.beat(10);
    assert_eq!(heartbeat.beat_count(), 1);
    heartbeat.beat(20);
    assert_eq!(heartbeat.beat_count(), 2);
    heartbeat.reset(30);
    assert_eq!(heartbeat.beat_count(), 0);
}
