use nexus::atomic::{AtomicCounter, AtomicTimestamp};
use nexus::{
    align_down, align_up, is_power_of_2, next_power_of_2, now_millis, now_nanos, now_secs, AgentId,
    GoalId, LamportTimestamp, NamespaceId,
};
use std::sync::atomic::Ordering;

#[test]
fn test_next_power_of_2() {
    assert_eq!(next_power_of_2(0), 1);
    assert_eq!(next_power_of_2(1), 1);
    assert_eq!(next_power_of_2(2), 2);
    assert_eq!(next_power_of_2(3), 4);
    assert_eq!(next_power_of_2(100), 128);
    assert_eq!(next_power_of_2(1024), 1024);
}

#[test]
fn test_is_power_of_2() {
    assert!(!is_power_of_2(0));
    assert!(is_power_of_2(1));
    assert!(is_power_of_2(2));
    assert!(is_power_of_2(4));
    assert!(is_power_of_2(64));
    assert!(!is_power_of_2(3));
    assert!(!is_power_of_2(100));
}

#[test]
fn test_align_up_down() {
    assert_eq!(align_up(100, 64), 128);
    assert_eq!(align_up(64, 64), 64);
    assert_eq!(align_up(0, 64), 0);
    assert_eq!(align_down(100, 64), 64);
    assert_eq!(align_down(128, 64), 128);
}

#[test]
fn test_prelude_exports() {
    let ts = AtomicTimestamp::new(0);
    assert_eq!(ts.load(Ordering::Relaxed), 0);

    let mut counter = AtomicCounter::new(0);
    counter.increment(Ordering::Relaxed);
    assert_eq!(counter.load(Ordering::Relaxed), 1);
}

#[test]
fn test_time_functions() {
    let nanos = now_nanos();
    let millis = now_millis();
    let secs = now_secs();

    assert!(nanos > 0);
    assert!(millis > 0);
    assert!(secs > 0);

    assert!(nanos / 1_000_000 >= millis.saturating_sub(1));
}

#[test]
fn test_type_aliases() {
    let _goal_id: GoalId = 42;
    let _agent_id: AgentId = 123;
    let _namespace_id: NamespaceId = 456;
    let _lamport_ts: LamportTimestamp = 789;
}

#[test]
fn next_power_of_2_of_largest_power() {
    let top = usize::MAX / 2 + 1;
    assert_eq!(next_power_of_2(top), top);
    assert_eq!(next_power_of_2(top - 1), top);
}
