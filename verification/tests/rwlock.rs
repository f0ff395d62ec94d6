use nexus::rwlock::instrumented::{ContentionCounters, WriterFairness, DEFAULT_FAIRNESS_THRESHOLD};
use nexus::rwlock::timed::TimedLockState;
use std::time::Duration;
use nexus::rwlock::{FairRawRwLock, WRITER_BIT};

#[test]
fn raw_lock_readers_exclude_writer() {
    let mut lock = FairRawRwLock::new();
    lock.lock_shared();
    assert!(lock.try_lock_shared());
    assert!(!lock.try_lock_exclusive());
    lock.unlock_shared();
    lock.unlock_shared();
    assert!(lock.try_lock_exclusive());
    assert!(!lock.try_lock_shared());
    lock.unlock_exclusive();
    lock.lock_exclusive();
    lock.unlock_exclusive();
    assert!(lock.try_lock_shared());
    assert_eq!(WRITER_BIT, 1 << 30);
}

#[test]
fn timed_lock_state_records_holder_and_timeouts() {
    let mut state = TimedLockState::with_slot_name("goal_state");
    assert_eq!(state.slot_name(), "goal_state");
    assert_eq!(state.holder_agent_id(), None);
    state.record_attempt();
    state.set_holder(42, 7, 1_000);
    assert_eq!(state.holder_agent_id(), Some(42));
    assert_eq!(state.holder_thread_id(), Some(7));
    assert_eq!(state.acquisition_time(), Some(1_000));
    assert_eq!(state.held_duration(1_500), Some(Duration::from_nanos(500)));
    assert_eq!(state.held_duration(900), Some(Duration::ZERO));
    state.record_attempt();
    let err = state.record_timeout(Duration::from_millis(5));
    assert_eq!(err.slot_id, 0);
    assert_eq!(err.slot_name, "goal_state");
    assert_eq!(err.holder_agent_id, Some(42));
    assert_eq!(err.holder_thread_id, Some(7));
    assert_eq!(err.timeout_duration, Duration::from_millis(5));
    assert_eq!(state.write_acquire_count(), 2);
    assert_eq!(state.timeout_count(), 1);
    state.release_agent_tracking();
    assert_eq!(state.holder_agent_id(), None);
    assert_eq!(state.acquisition_time(), None);
    assert_eq!(state.held_duration(5_000), None);
    let mut fresh = TimedLockState::new();
    assert_eq!(fresh.slot_name(), "unknown");
    let err = fresh.record_timeout(Duration::from_millis(1));
    assert_eq!(err.holder_agent_id, None);
    assert_eq!(err.holder_thread_id, None);
    assert_eq!(fresh.write_acquire_count(), 0);
}

#[test]
fn contention_counters_count_reads_writes_and_waits() {
    let mut counters = ContentionCounters::new();
    for _ in 0..10 {
        counters.record_read(false);
    }
    counters.record_write(false);
    assert_eq!(counters.read_count(), 10);
    assert_eq!(counters.write_count(), 1);
    assert_eq!(counters.contended_reads(), 0);
    counters.record_read(true);
    counters.record_write(true);
    assert_eq!(counters.read_count(), 11);
    assert_eq!(counters.contended_reads(), 1);
    assert_eq!(counters.write_count(), 2);
    assert_eq!(counters.contended_writes(), 1);
    counters.reset_metrics();
    assert_eq!(counters.read_count(), 0);
    assert_eq!(counters.contended_writes(), 0);
}

#[test]
fn writer_fairness_backoff_is_capped_by_threshold() {
    let mut fairness = WriterFairness::new();
    assert_eq!(DEFAULT_FAIRNESS_THRESHOLD, 16);
    assert_eq!(fairness.backoff_spins(), 0);
    fairness.writer_arrives();
    fairness.writer_arrives();
    assert_eq!(fairness.pending_writers(), 2);
    assert_eq!(fairness.backoff_spins(), 2);
    fairness.writer_leaves();
    assert_eq!(fairness.backoff_spins(), 1);
    let mut strict = WriterFairness::with_threshold(1);
    for _ in 0..5 {
        strict.writer_arrives();
    }
    assert_eq!(strict.backoff_spins(), 1);
    let mut empty = WriterFairness::with_threshold(3);
    empty.writer_leaves();
    assert_eq!(empty.pending_writers(), usize::MAX);
    assert_eq!(empty.backoff_spins(), 3);
}
