use nexus::atomic::{
    AtomicCell, AtomicCounter, AtomicRef, AtomicInt, AtomicOption, AtomicPointer, AtomicTimestamp,
    PaddedAtomicU64, TypedAtomic,
};
use std::sync::atomic::Ordering;

#[test]
fn test_padded_atomic_u64() {
    let mut atomic = PaddedAtomicU64::new(42);
    assert_eq!(atomic.load(Ordering::Relaxed), 42);
    assert_eq!(atomic.fetch_add(10, Ordering::Relaxed), 42);
    assert_eq!(atomic.load(Ordering::Relaxed), 52);
}

#[test]
fn test_atomic_timestamp_monotonicity() {
    let mut ts = AtomicTimestamp::new(100);
    assert!(ts.advance(150));
    assert!(!ts.advance(120));
    assert_eq!(ts.load(Ordering::Relaxed), 150);
}

#[test]
fn test_atomic_counter_saturating() {
    let mut counter = AtomicCounter::new(u64::MAX - 5);
    let result = counter.add(10, Ordering::Relaxed);
    assert_eq!(result, u64::MAX);
    assert_eq!(counter.load(Ordering::Relaxed), u64::MAX);
}

#[test]
fn test_atomic_cell() {
    let mut cell = AtomicCell::new(42u64);
    assert_eq!(cell.load(), 42);
    cell.store(100);
    assert_eq!(cell.load(), 100);
    assert_eq!(cell.swap(200), 100);
    assert_eq!(cell.load(), 200);
}

#[test]
fn test_atomic_option() {
    let mut opt = AtomicOption::new(None);
    assert!(opt.is_none());
    opt.swap(Some(42u64));
    assert!(opt.is_some());
    assert_eq!(opt.load(), Some(42u64));
    assert_eq!(opt.take(), Some(42u64));
    assert!(opt.is_none());
}

#[test]
fn test_typed_atomic_type_safety() {
    struct GoalId;
    struct AgentId;

    let goal = TypedAtomic::<GoalId>::new(1);
    let agent = TypedAtomic::<AgentId>::new(2);

    let _ = goal.load(Ordering::Relaxed);
    let _ = agent.load(Ordering::Relaxed);
}

#[test]
fn test_lamport_advance_to_higher_value() {
    let mut ts = AtomicTimestamp::new(50);
    let result = ts.advance_to(80);
    let loaded = ts.load(Ordering::Acquire);

    assert_eq!(loaded, 81, "advance_to(80) from 50 should give 81, not {}", loaded);
    assert_eq!(result, 81, "advance_to should return the new value");
}

#[test]
fn test_lamport_advance_to_lower_value_no_regression() {
    let mut ts = AtomicTimestamp::new(50);
    let result = ts.advance_to(30);
    let loaded = ts.load(Ordering::Acquire);

    assert_eq!(loaded, 51, "advance_to(30) from 50 should give 51, not {}", loaded);
    assert!(loaded > 50, "Counter should not regress below initial value");
    assert_eq!(result, 51);
}

#[test]
fn test_lamport_advance_to_equal_value() {
    let mut ts = AtomicTimestamp::new(50);
    let result = ts.advance_to(50);
    let loaded = ts.load(Ordering::Acquire);

    assert_eq!(loaded, 51, "advance_to(50) from 50 should give 51, not {}", loaded);
    assert_eq!(result, 51);
}

#[test]
fn test_atomic_pointer_null_before_first_store() {
    let ptr: AtomicPointer<u64> = AtomicPointer::new();

    let result = ptr.load();
    assert!(result.is_none(), "Fresh AtomicPointer should load None, got {:?}", result);
    assert!(ptr.is_null(), "Fresh AtomicPointer should be null");
}

#[test]
fn test_atomic_int_basic_operations() {
    let mut counter = AtomicInt::new(0);

    assert_eq!(counter.load(Ordering::Relaxed), 0);

    let prev = counter.fetch_add(100, Ordering::Relaxed);
    assert_eq!(prev, 0);
    assert_eq!(counter.load(Ordering::Relaxed), 100);

    let prev = counter.fetch_sub(50, Ordering::Relaxed);
    assert_eq!(prev, 100);
    assert_eq!(counter.load(Ordering::Relaxed), 50);
}

#[test]
fn test_token_does_not_wrap_on_double_release() {
    let mut counter = AtomicInt::new(0);

    let prev = counter.fetch_add(100, Ordering::SeqCst);
    assert_eq!(prev, 0, "First fetch_add should return 0");
    assert_eq!(counter.load(Ordering::SeqCst), 100, "After add, counter should be 100");

    let prev = counter.fetch_sub(100, Ordering::SeqCst);
    assert_eq!(prev, 100, "fetch_sub after add should return 100");
    assert_eq!(counter.load(Ordering::SeqCst), 0, "After release, counter should be 0");

    let prev = counter.fetch_sub(100, Ordering::SeqCst);
    assert_eq!(prev, 0, "Second fetch_sub should return 0");

    let final_value = counter.load(Ordering::SeqCst);
    assert_eq!(final_value, -100, "Counter should be -100 after double release, got {}", final_value);

    assert!(counter.is_negative(Ordering::SeqCst), "Negative counter indicates bug");
}

#[test]
fn test_atomic_int_signed_detection() {
    let mut counter = AtomicInt::new(50);

    assert!(!counter.is_negative(Ordering::Relaxed));
    assert!(!counter.is_zero(Ordering::Relaxed));

    counter.fetch_sub(100, Ordering::Relaxed);
    assert!(counter.is_negative(Ordering::Relaxed));

    counter.store(0, Ordering::Relaxed);
    assert!(counter.is_zero(Ordering::Relaxed));
}

#[test]
fn counter_threshold_remaining_saturates_at_zero() {
    let mut counter = AtomicCounter::with_threshold(50, 100);
    assert_eq!(counter.threshold(), Some(100));
    assert_eq!(AtomicCounter::new(7).threshold(), None);
    assert!(!counter.is_at_threshold());
    assert_eq!(counter.remaining(), Some(50));
    counter.add(50, Ordering::Relaxed);
    assert!(counter.is_at_threshold());
    assert_eq!(counter.remaining(), Some(0));
    counter.add(10, Ordering::Relaxed);
    assert!(counter.is_at_threshold());
    assert_eq!(counter.remaining(), Some(0));
}

#[test]
fn timestamp_advance_by_saturates_and_try_store_refuses_older() {
    let mut ts = AtomicTimestamp::new(u64::MAX - 1);
    assert_eq!(ts.advance_by(3), u64::MAX);
    assert_eq!(ts.increment(), u64::MAX);
    let mut ts = AtomicTimestamp::new(7);
    assert_eq!(ts.advance_by(3), 10);
    assert_eq!(ts.increment(), 11);
    let mut ts = AtomicTimestamp::new(10);
    assert!(!ts.try_store(5));
    assert_eq!(ts.load(Ordering::Relaxed), 10);
    assert!(ts.try_store(20));
    assert_eq!(ts.load(Ordering::Relaxed), 20);
}

#[test]
fn atomic_timestamp_now_and_update_to_now() {
    let mut ts = AtomicTimestamp::new(0);
    assert!(ts.update_to_now());
    let before = ts.load(Ordering::Relaxed);
    assert!(before > 0);
    let now = AtomicTimestamp::now();
    assert!(now.load(Ordering::Relaxed) > 0);
}

#[test]
fn atomic_cell_compare_exchange_reports_current() {
    let mut cell = AtomicCell::new(7u32);
    assert_eq!(cell.compare_exchange(7, 9), Ok(7));
    assert_eq!(cell.compare_exchange(7, 11), Err(9));
    assert_eq!(cell.load(), 9);
}

#[test]
fn atomic_ref_writes_through_as_mut_and_empties_on_take() {
    let mut r = AtomicRef::new(5u64);
    if let Some(v) = r.as_mut() {
        *v = 7;
    }
    assert_eq!(r.as_ref(), Some(&7));
    assert_eq!(r.set_if_none(9), Err(9));
    assert_eq!(r.take(), Some(7));
    assert!(r.is_null());
    assert!(r.as_mut().is_none());
    assert_eq!(r.set_if_none(9), Ok(()));
    assert_eq!(r.swap(None), Some(9));
}
