//! Atomic-style cells for counters, timestamps and optional values.
//!
//! Every type here holds a plain value and is updated through `&mut self`:
//! each call is one indivisible step on that value, so the contracts describe
//! exactly what one step reads and writes. The memory-ordering arguments are
//! kept for callers and have no effect on the value.

use std::marker::PhantomData;
use std::sync::atomic::Ordering;
use vstd::std_specs::cmp::PartialEqSpec;
use vstd::prelude::*;

verus! {

/// Cache line size for alignment (typically 64 bytes on modern CPUs).
pub const CACHE_LINE_SIZE: usize = 64;

/// `a + b` wrapped around at 2^64.
pub open spec fn wrap_add_u64(a: u64, b: u64) -> u64 {
    vstd::wrapping::u64_specs::wrapping_add(a, b)
}

/// `a - b` wrapped around at 2^64.
pub open spec fn wrap_sub_u64(a: u64, b: u64) -> u64 {
    vstd::wrapping::u64_specs::wrapping_sub(a, b)
}

/// `a + b` wrapped around at usize::MAX + 1.
pub open spec fn wrap_add_usize(a: usize, b: usize) -> usize {
    vstd::wrapping::usize_specs::wrapping_add(a, b)
}

/// `a - b` wrapped around at usize::MAX + 1.
pub open spec fn wrap_sub_usize(a: usize, b: usize) -> usize {
    vstd::wrapping::usize_specs::wrapping_sub(a, b)
}

/// `a + b` saturated at `u64::MAX`.
pub open spec fn sat_add_u64(a: u64, b: u64) -> u64 {
    if a + b > u64::MAX {
        u64::MAX
    } else {
        (a + b) as u64
    }
}

/// `a - b` saturated at zero.
pub open spec fn sat_sub_u64(a: u64, b: u64) -> u64 {
    if a < b {
        0
    } else {
        (a - b) as u64
    }
}

/// The larger of two values.
pub open spec fn max_u64(a: u64, b: u64) -> u64 {
    if a >= b {
        a
    } else {
        b
    }
}

/// A cache-line padded atomic `u64`.
#[derive(Debug)]
pub struct PaddedAtomicU64 {
    value: u64,
}

impl View for PaddedAtomicU64 {
    type V = u64;

    closed spec fn view(&self) -> u64 {
        self.value
    }
}

impl PaddedAtomicU64 {
    /// Creates a new padded atomic with the given initial value.
    pub fn new(value: u64) -> (r: Self)
        ensures
            r@ == value,
    {
        PaddedAtomicU64 { value }
    }

    /// Loads the value from the atomic.
    pub fn load(&self, order: Ordering) -> (r: u64)
        ensures
            r == self@,
    {
        self.value
    }

    /// Stores a value into the atomic.
    pub fn store(&mut self, val: u64, order: Ordering)
        ensures
            final(self)@ == val,
    {
        self.value = val;
    }

    /// Adds to the value (wrapping), returning the previous value.
    pub fn fetch_add(&mut self, val: u64, order: Ordering) -> (r: u64)
        ensures
            r == old(self)@,
            final(self)@ == wrap_add_u64(old(self)@, val),
    {
        let prev = self.value;
        self.value = self.value.wrapping_add(val);
        prev
    }

    /// Subtracts from the value (wrapping), returning the previous value.
    pub fn fetch_sub(&mut self, val: u64, order: Ordering) -> (r: u64)
        ensures
            r == old(self)@,
            final(self)@ == wrap_sub_u64(old(self)@, val),
    {
        let prev = self.value;
        self.value = self.value.wrapping_sub(val);
        prev
    }

    /// Swaps the value, returning the previous value.
    pub fn swap(&mut self, val: u64, order: Ordering) -> (r: u64)
        ensures
            r == old(self)@,
            final(self)@ == val,
    {
        let prev = self.value;
        self.value = val;
        prev
    }

    /// Stores `new` if the value equals `current`.
    ///
    /// Returns `Ok(previous)` when it stored, `Err(actual)` otherwise.
    pub fn compare_exchange(&mut self, current: u64, new: u64, success: Ordering, failure: Ordering) -> (r:
        Result<u64, u64>)
        ensures
            old(self)@ == current ==> r == Ok::<u64, u64>(current) && final(self)@ == new,
            old(self)@ != current ==> r == Err::<u64, u64>(old(self)@) && final(self)@ == old(self)@,
    {
        if self.value == current {
            self.value = new;
            Ok(current)
        } else {
            Err(self.value)
        }
    }

    /// Replaces the value by `f(value)`, returning the previous value.
    pub fn update<F>(&mut self, f: F, order: Ordering) -> (r: u64) where F: Fn(u64) -> u64
        requires
            f.requires((old(self)@,)),
        ensures
            r == old(self)@,
            f.ensures((old(self)@,), final(self)@),
    {
        let current = self.value;
        let new = f(current);
        self.value = new;
        current
    }
}

impl Default for PaddedAtomicU64 {
    fn default() -> (r: Self)
        ensures
            r@ == 0,
    {
        Self::new(0)
    }
}

/// A cache-line padded atomic `usize`.
#[derive(Debug)]
pub struct PaddedAtomicUsize {
    value: usize,
}

impl View for PaddedAtomicUsize {
    type V = usize;

    closed spec fn view(&self) -> usize {
        self.value
    }
}

impl PaddedAtomicUsize {
    /// Creates a new padded atomic with the given initial value.
    pub fn new(value: usize) -> (r: Self)
        ensures
            r@ == value,
    {
        PaddedAtomicUsize { value }
    }

    /// Loads the value.
    pub fn load(&self, order: Ordering) -> (r: usize)
        ensures
            r == self@,
    {
        self.value
    }

    /// Stores a value.
    pub fn store(&mut self, val: usize, order: Ordering)
        ensures
            final(self)@ == val,
    {
        self.value = val;
    }

    /// Adds to the value (wrapping), returning the previous value.
    pub fn fetch_add(&mut self, val: usize, order: Ordering) -> (r: usize)
        ensures
            r == old(self)@,
            final(self)@ == wrap_add_usize(old(self)@, val),
    {
        let prev = self.value;
        self.value = self.value.wrapping_add(val);
        prev
    }

    /// Subtracts from the value (wrapping), returning the previous value.
    pub fn fetch_sub(&mut self, val: usize, order: Ordering) -> (r: usize)
        ensures
            r == old(self)@,
            final(self)@ == wrap_sub_usize(old(self)@, val),
    {
        let prev = self.value;
        self.value = self.value.wrapping_sub(val);
        prev
    }

    /// Stores `new` if the value equals `current`.
    pub fn compare_exchange(&mut self, current: usize, new: usize, success: Ordering, failure: Ordering) -> (r:
        Result<usize, usize>)
        ensures
            old(self)@ == current ==> r == Ok::<usize, usize>(current) && final(self)@ == new,
            old(self)@ != current ==> r == Err::<usize, usize>(old(self)@) && final(self)@ == old(self)@,
    {
        if self.value == current {
            self.value = new;
            Ok(current)
        } else {
            Err(self.value)
        }
    }
}

impl Default for PaddedAtomicUsize {
    fn default() -> (r: Self)
        ensures
            r@ == 0,
    {
        Self::new(0)
    }
}

/// A timestamp that never moves backwards through `try_store`, `advance`
/// and `advance_to`.
///
/// `advance_to` is the Lamport clock receive rule: the clock becomes
/// `max(current, incoming) + 1`.
#[derive(Debug)]
pub struct AtomicTimestamp {
    timestamp: u64,
    last_observed: u64,
}

impl View for AtomicTimestamp {
    type V = u64;

    closed spec fn view(&self) -> u64 {
        self.timestamp
    }
}

impl AtomicTimestamp {
    /// The value most recently written by an update.
    pub closed spec fn spec_last_observed(&self) -> u64 {
        self.last_observed
    }

    /// Creates a new atomic timestamp.
    pub fn new(value: u64) -> (r: Self)
        ensures
            r@ == value,
            r.spec_last_observed() == value,
    {
        AtomicTimestamp { timestamp: value, last_observed: value }
    }

    /// Loads the current timestamp.
    pub fn load(&self, order: Ordering) -> (r: u64)
        ensures
            r == self@,
    {
        self.timestamp
    }

    /// Stores `new` unless it is smaller than the current value.
    ///
    /// Returns `true` if the new value was stored.
    pub fn try_store(&mut self, new: u64) -> (r: bool)
        ensures
            r == (new >= old(self)@),
            r ==> final(self)@ == new && final(self).spec_last_observed() == new,
            !r ==> *final(self) == *old(self),
            final(self)@ >= old(self)@,
    {
        if new < self.timestamp {
            return false;
        }
        self.timestamp = new;
        self.last_observed = new;
        true
    }

    /// Advances the timestamp to at least `minimum`.
    ///
    /// Returns `true` if the timestamp was advanced, `false` if it was
    /// already >= minimum.
    pub fn advance(&mut self, minimum: u64) -> (r: bool)
        ensures
            r == (old(self)@ < minimum),
            final(self)@ == max_u64(old(self)@, minimum),
            !r ==> *final(self) == *old(self),
            r ==> final(self).spec_last_observed() == minimum,
    {
        if self.timestamp >= minimum {
            return false;
        }
        self.try_store(minimum)
    }

    /// Advances the timestamp by `delta` and returns the new value. The
    /// timestamp never moves backwards: at `u64::MAX` it stays there.
    pub fn advance_by(&mut self, delta: u64) -> (r: u64)
        ensures
            r == sat_add_u64(old(self)@, delta),
            r >= old(self)@,
            final(self)@ == r,
            final(self).spec_last_observed() == r,
    {
        let new = self.timestamp.saturating_add(delta);
        self.timestamp = new;
        self.last_observed = new;
        new
    }

    /// Increments the timestamp by 1 and returns the new value.
    pub fn increment(&mut self) -> (r: u64)
        ensures
            r == sat_add_u64(old(self)@, 1),
            r >= old(self)@,
            final(self)@ == r,
            final(self).spec_last_observed() == r,
    {
        self.advance_by(1)
    }

    /// Returns the timestamp in nanoseconds.
    pub fn as_nanos(&self) -> (r: u64)
        ensures
            r == self@,
    {
        self.timestamp
    }

    /// Returns the timestamp in milliseconds.
    pub fn as_millis(&self) -> (r: u64)
        ensures
            r == self@ / 1_000_000,
    {
        self.timestamp / 1_000_000
    }

    /// Returns the timestamp in seconds.
    pub fn as_secs(&self) -> (r: u64)
        ensures
            r == self@ / 1_000_000_000,
    {
        self.timestamp / 1_000_000_000
    }

    /// A timestamp holding the current system time, in nanoseconds since the
    /// Unix epoch.
    pub fn now() -> (r: Self)
        ensures
            exists|t: std::time::SystemTime| r@ == #[trigger] crate::timing::system_time::epoch_nanos(t),
            r.spec_last_observed() == r@,
    {
        Self::new(crate::timing::system_time::now_nanos())
    }

    /// Advances the timestamp to the current system time if it is older;
    /// returns whether it moved.
    pub fn update_to_now(&mut self) -> (r: bool)
        ensures
            exists|t: std::time::SystemTime| {
                let now = #[trigger] crate::timing::system_time::epoch_nanos(t);
                &&& r == (old(self)@ < now)
                &&& final(self)@ == max_u64(old(self)@, now)
            },
    {
        let now = crate::timing::system_time::now_nanos();
        self.advance(now)
    }

    /// Lamport receive rule: sets the clock to `max(current, incoming) + 1`
    /// and returns the new value.
    pub fn advance_to(&mut self, incoming: u64) -> (r: u64)
        requires
            max_u64(old(self)@, incoming) < u64::MAX,
        ensures
            r == max_u64(old(self)@, incoming) + 1,
            final(self)@ == r,
            final(self).spec_last_observed() == r,
            r > old(self)@,
            r > incoming,
    {
        let current = self.timestamp;
        let new_value = if current >= incoming {
            current + 1
        } else {
            incoming + 1
        };
        self.timestamp = new_value;
        self.last_observed = new_value;
        new_value
    }
}

impl Default for AtomicTimestamp {
    fn default() -> (r: Self)
        ensures
            r@ == 0,
    {
        Self::new(0)
    }
}

/// A counter with saturating arithmetic and an optional threshold.
#[derive(Debug)]
pub struct AtomicCounter {
    value: u64,
    threshold: Option<u64>,
}

impl View for AtomicCounter {
    type V = u64;

    closed spec fn view(&self) -> u64 {
        self.value
    }
}

impl AtomicCounter {
    /// The threshold the counter was made with, if any.
    pub closed spec fn spec_threshold(&self) -> Option<u64> {
        self.threshold
    }

    pub closed spec fn wf(&self) -> bool {
        self.threshold matches Some(t) ==> t > 0
    }

    /// Creates a new counter without a threshold.
    pub fn new(value: u64) -> (r: Self)
        ensures
            r.wf(),
            r@ == value,
            r.spec_threshold() == None::<u64>,
    {
        AtomicCounter { value, threshold: None }
    }

    /// Creates a counter with a saturation threshold, which must not be zero.
    pub fn with_threshold(value: u64, threshold: u64) -> (r: Self)
        requires
            threshold > 0,
        ensures
            r.wf(),
            r@ == value,
            r.spec_threshold() == Some(threshold),
    {
        AtomicCounter { value, threshold: Some(threshold) }
    }

    /// Loads the current value.
    pub fn load(&self, order: Ordering) -> (r: u64)
        ensures
            r == self@,
    {
        self.value
    }

    /// Increments by 1 (saturating at `u64::MAX`) and returns the new value.
    pub fn increment(&mut self, order: Ordering) -> (r: u64)
        ensures
            r == sat_add_u64(old(self)@, 1),
            final(self)@ == r,
            final(self).spec_threshold() == old(self).spec_threshold(),
            final(self).wf() == old(self).wf(),
    {
        self.add(1, order)
    }

    /// Decrements by 1 (saturating at 0) and returns the new value.
    pub fn decrement(&mut self, order: Ordering) -> (r: u64)
        ensures
            r == sat_sub_u64(old(self)@, 1),
            final(self)@ == r,
            final(self).spec_threshold() == old(self).spec_threshold(),
            final(self).wf() == old(self).wf(),
    {
        self.sub(1, order)
    }

    /// Adds `delta` (saturating at `u64::MAX`) and returns the new value.
    pub fn add(&mut self, delta: u64, order: Ordering) -> (r: u64)
        ensures
            r == sat_add_u64(old(self)@, delta),
            final(self)@ == r,
            final(self).spec_threshold() == old(self).spec_threshold(),
            final(self).wf() == old(self).wf(),
    {
        let new = self.value.saturating_add(delta);
        self.value = new;
        new
    }

    /// Subtracts `delta` (saturating at 0) and returns the new value.
    pub fn sub(&mut self, delta: u64, order: Ordering) -> (r: u64)
        ensures
            r == sat_sub_u64(old(self)@, delta),
            final(self)@ == r,
            final(self).spec_threshold() == old(self).spec_threshold(),
            final(self).wf() == old(self).wf(),
    {
        let new = self.value.saturating_sub(delta);
        self.value = new;
        new
    }

    /// Sets the value to `new` if `new` is greater.
    ///
    /// Returns `true` if the value was updated.
    pub fn set_if_greater(&mut self, new: u64, order: Ordering) -> (r: bool)
        ensures
            r == (new > old(self)@),
            final(self)@ == max_u64(old(self)@, new),
            final(self).spec_threshold() == old(self).spec_threshold(),
            final(self).wf() == old(self).wf(),
    {
        if self.value >= new {
            return false;
        }
        self.value = new;
        true
    }

    /// Resets the counter to zero and returns the previous value.
    pub fn reset(&mut self, order: Ordering) -> (r: u64)
        ensures
            r == old(self)@,
            final(self)@ == 0,
            final(self).spec_threshold() == old(self).spec_threshold(),
            final(self).wf() == old(self).wf(),
    {
        let prev = self.value;
        self.value = 0;
        prev
    }

    /// Returns `true` if the counter has reached or exceeded its threshold.
    pub fn is_at_threshold(&self) -> (r: bool)
        ensures
            r == match self.spec_threshold() {
                Some(t) => self@ >= t,
                None => false,
            },
    {
        match self.threshold {
            Some(t) => self.value >= t,
            None => false,
        }
    }

    /// Returns the remaining capacity before the threshold, if one is set.
    pub fn remaining(&self) -> (r: Option<u64>)
        ensures
            r == match self.spec_threshold() {
                Some(t) => Some(sat_sub_u64(t, self@)),
                None => None::<u64>,
            },
    {
        match self.threshold {
            Some(t) => Some(t.saturating_sub(self.value)),
            None => None,
        }
    }

    /// The threshold the counter was made with, if any.
    pub fn threshold(&self) -> (r: Option<u64>)
        ensures
            r == self.spec_threshold(),
    {
        self.threshold
    }
}

impl Default for AtomicCounter {
    fn default() -> (r: Self)
        ensures
            r.wf(),
            r@ == 0,
            r.spec_threshold() == None::<u64>,
    {
        Self::new(0)
    }
}

/// A container for a single `Copy` value with atomic-style updates.
pub struct AtomicCell<T: Copy> {
    value: T,
}

impl<T: Copy> View for AtomicCell<T> {
    type V = T;

    closed spec fn view(&self) -> T {
        self.value
    }
}

impl<T: Copy> AtomicCell<T> {
    /// Creates a new atomic cell with the given value.
    pub fn new(value: T) -> (r: Self)
        ensures
            r@ == value,
    {
        AtomicCell { value }
    }

    /// Loads the current value.
    pub fn load(&self) -> (r: T)
        ensures
            r == self@,
    {
        self.value
    }

    /// Stores a new value.
    pub fn store(&mut self, value: T)
        ensures
            final(self)@ == value,
    {
        self.value = value;
    }

    /// Swaps the value and returns the previous value.
    pub fn swap(&mut self, value: T) -> (r: T)
        ensures
            r == old(self)@,
            final(self)@ == value,
    {
        let prev = self.value;
        self.value = value;
        prev
    }

    /// Stores `new` if the value equals `current`.
    ///
    /// Returns `Ok(current)` when it stored, `Err(actual)` otherwise. The
    /// comparison is `T`'s `==`.
    pub fn compare_exchange(&mut self, current: T, new: T) -> (r: Result<T, T>) where T: PartialEq
        ensures
            match r {
                Ok(v) => {
                    &&& v == current
                    &&& final(self)@ == new
                    &&& (T::obeys_eq_spec() ==> old(self)@.eq_spec(&current))
                },
                Err(v) => {
                    &&& v == old(self)@
                    &&& final(self)@ == old(self)@
                    &&& (T::obeys_eq_spec() ==> !old(self)@.eq_spec(&current))
                },
            },
    {
        let actual = self.value;
        if actual != current {
            return Err(actual);
        }
        match self.try_swap(current, new) {
            Ok(_) => Ok(current),
            Err(()) => Err(self.value),
        }
    }

    /// Stores `new` if the cell holds `expected` (by `T`'s `==`), returning
    /// the value it held; `Err(())` otherwise, with the cell unchanged.
    fn try_swap(&mut self, expected: T, new: T) -> (r: Result<T, ()>) where T: PartialEq
        ensures
            match r {
                Ok(v) => {
                    &&& v == old(self)@
                    &&& final(self)@ == new
                    &&& (T::obeys_eq_spec() ==> old(self)@.eq_spec(&expected))
                },
                Err(()) => {
                    &&& final(self)@ == old(self)@
                    &&& (T::obeys_eq_spec() ==> !old(self)@.eq_spec(&expected))
                },
            },
    {
        let current = self.value;
        if current == expected {
            self.value = new;
            Ok(current)
        } else {
            Err(())
        }
    }
}

/// An optional value with atomic-style take and swap.
pub struct AtomicOption<T> {
    value: Option<T>,
}

impl<T> View for AtomicOption<T> {
    type V = Option<T>;

    closed spec fn view(&self) -> Option<T> {
        self.value
    }
}

impl<T> AtomicOption<T> {
    /// Creates a new atomic option holding `value`.
    pub fn new(value: Option<T>) -> (r: Self)
        ensures
            r@ == value,
    {
        AtomicOption { value }
    }

    /// Loads a clone of the current value.
    pub fn load(&self) -> (r: Option<T>) where T: Clone
        ensures
            r is Some == self@ is Some,
            r is Some ==> cloned(self@->0, r->0),
    {
        match &self.value {
            Some(v) => Some(v.clone()),
            None => None,
        }
    }

    /// Loads a reference to the value without cloning.
    pub fn load_ref(&self) -> (r: Option<&T>)
        ensures
            r is Some == self@ is Some,
            r is Some ==> *(r->0) == self@->0,
    {
        match &self.value {
            Some(v) => Some(v),
            None => None,
        }
    }

    /// Stores a new value, returning the old value.
    pub fn swap(&mut self, value: Option<T>) -> (r: Option<T>)
        ensures
            r == old(self)@,
            final(self)@ == value,
    {
        let mut v = value;
        std::mem::swap(&mut self.value, &mut v);
        v
    }

    /// Stores `None` and returns the previous value.
    pub fn take(&mut self) -> (r: Option<T>)
        ensures
            r == old(self)@,
            final(self)@ == None::<T>,
    {
        self.swap(None)
    }

    /// Returns `true` if the option is `Some`.
    pub fn is_some(&self) -> (r: bool)
        ensures
            r == self@ is Some,
    {
        self.value.is_some()
    }

    /// Returns `true` if the option is `None`.
    pub fn is_none(&self) -> (r: bool)
        ensures
            r == self@ is None,
    {
        self.value.is_none()
    }
}

impl<T> Default for AtomicOption<T> {
    fn default() -> (r: Self)
        ensures
            r@ == None::<T>,
    {
        Self::new(None)
    }
}

/// An owned value that can be taken out, leaving the reference empty.
pub struct AtomicRef<T> {
    value: Option<T>,
}

impl<T> View for AtomicRef<T> {
    type V = Option<T>;

    closed spec fn view(&self) -> Option<T> {
        self.value
    }
}

impl<T> AtomicRef<T> {
    /// Creates a new atomic reference holding `value`.
    pub fn new(value: T) -> (r: Self)
        ensures
            r@ == Some(value),
    {
        AtomicRef { value: Some(value) }
    }

    /// Gets a reference to the inner value.
    pub fn as_ref(&self) -> (r: Option<&T>)
        ensures
            r is Some == self@ is Some,
            r is Some ==> *(r->0) == self@->0,
    {
        match &self.value {
            Some(v) => Some(v),
            None => None,
        }
    }

    /// Gets a mutable reference to the inner value; a write through it
    /// becomes the held value.
    pub fn as_mut(&mut self) -> (r: Option<&mut T>)
        ensures
            r is Some == old(self)@ is Some,
            r is Some ==> *(r->0) == old(self)@->0,
            r is Some ==> final(self)@ == Some(*final(r->0)),
            r is None ==> final(self)@ == old(self)@,
    {
        match &mut self.value {
            Some(v) => Some(v),
            None => None,
        }
    }

    /// Checks if the reference is empty.
    pub fn is_null(&self) -> (r: bool)
        ensures
            r == self@ is None,
    {
        self.value.is_none()
    }

    /// Swaps the value, returning the previous one.
    pub fn swap(&mut self, value: Option<T>) -> (r: Option<T>)
        ensures
            r == old(self)@,
            final(self)@ == value,
    {
        let mut v = value;
        std::mem::swap(&mut self.value, &mut v);
        v
    }

    /// Takes the value out, leaving the reference empty.
    pub fn take(&mut self) -> (r: Option<T>)
        ensures
            r == old(self)@,
            final(self)@ == None::<T>,
    {
        self.swap(None)
    }

    /// Sets the value if the reference is currently empty.
    ///
    /// Returns the value back if the reference already held one.
    pub fn set_if_none(&mut self, value: T) -> (r: Result<(), T>)
        ensures
            old(self)@ is None ==> r == Ok::<(), T>(()) && final(self)@ == Some(value),
            old(self)@ is Some ==> r == Err::<(), T>(value) && final(self)@ == old(self)@,
    {
        if self.value.is_none() {
            self.value = Some(value);
            Ok(())
        } else {
            Err(value)
        }
    }
}

impl<T> Default for AtomicRef<T> {
    fn default() -> (r: Self)
        ensures
            r@ == None::<T>,
    {
        AtomicRef { value: None }
    }
}

/// A `u64` cell tagged with a marker type, so that cells of different kinds
/// cannot be mixed up.
pub struct TypedAtomic<T> {
    value: u64,
    marker: PhantomData<T>,
}

impl<T> View for TypedAtomic<T> {
    type V = u64;

    closed spec fn view(&self) -> u64 {
        self.value
    }
}

impl<T> TypedAtomic<T> {
    /// Creates a new typed atomic.
    pub fn new(value: u64) -> (r: Self)
        ensures
            r@ == value,
    {
        TypedAtomic { value, marker: PhantomData }
    }

    /// Loads the value.
    pub fn load(&self, order: Ordering) -> (r: u64)
        ensures
            r == self@,
    {
        self.value
    }

    /// Stores the value.
    pub fn store(&mut self, val: u64, order: Ordering)
        ensures
            final(self)@ == val,
    {
        self.value = val;
    }

    /// Adds to the value (wrapping), returning the previous value.
    pub fn fetch_add(&mut self, val: u64, order: Ordering) -> (r: u64)
        ensures
            r == old(self)@,
            final(self)@ == wrap_add_u64(old(self)@, val),
    {
        let prev = self.value;
        self.value = self.value.wrapping_add(val);
        prev
    }

    /// Increments (wrapping) and returns the previous value.
    pub fn increment(&mut self, order: Ordering) -> (r: u64)
        ensures
            r == old(self)@,
            final(self)@ == wrap_add_u64(old(self)@, 1),
    {
        self.fetch_add(1, order)
    }

    /// Stores `new` if the value equals `current`.
    pub fn compare_exchange(&mut self, current: u64, new: u64, success: Ordering, failure: Ordering) -> (r:
        Result<u64, u64>)
        ensures
            old(self)@ == current ==> r == Ok::<u64, u64>(current) && final(self)@ == new,
            old(self)@ != current ==> r == Err::<u64, u64>(old(self)@) && final(self)@ == old(self)@,
    {
        if self.value == current {
            self.value = new;
            Ok(current)
        } else {
            Err(self.value)
        }
    }

    /// Swaps the value, returning the previous value.
    pub fn swap(&mut self, val: u64, order: Ordering) -> (r: u64)
        ensures
            r == old(self)@,
            final(self)@ == val,
    {
        let prev = self.value;
        self.value = val;
        prev
    }
}

impl<T> Default for TypedAtomic<T> {
    fn default() -> (r: Self)
        ensures
            r@ == 0,
    {
        Self::new(0)
    }
}

impl<T> Clone for TypedAtomic<T> {
    fn clone(&self) -> (r: Self)
        ensures
            r@ == self@,
    {
        Self::new(self.value)
    }
}

/// A slot that holds a shared reference or nothing.
pub struct AtomicPointer<'a, T> {
    target: Option<&'a T>,
}

impl<'a, T> View for AtomicPointer<'a, T> {
    type V = Option<&'a T>;

    closed spec fn view(&self) -> Option<&'a T> {
        self.target
    }
}

impl<'a, T> AtomicPointer<'a, T> {
    /// Creates a new atomic pointer that points nowhere.
    pub fn new() -> (r: Self)
        ensures
            r@ == None::<&'a T>,
    {
        AtomicPointer { target: None }
    }

    /// Creates a new atomic pointer to `value`.
    pub fn from_ref(value: &'a T) -> (r: Self)
        ensures
            r@ == Some(value),
    {
        AtomicPointer { target: Some(value) }
    }

    /// Loads the current target, `None` before the first store.
    pub fn load(&self) -> (r: Option<&'a T>)
        ensures
            r == self@,
    {
        self.target
    }

    /// Points at `value`.
    pub fn store(&mut self, value: &'a T)
        ensures
            final(self)@ == Some(value),
    {
        self.target = Some(value);
    }

    /// Points at `value`, returning the previous target.
    pub fn swap(&mut self, value: &'a T) -> (r: Option<&'a T>)
        ensures
            r == old(self)@,
            final(self)@ == Some(value),
    {
        let prev = self.target;
        self.target = Some(value);
        prev
    }

    /// Returns `true` if the pointer points nowhere.
    pub fn is_null(&self) -> (r: bool)
        ensures
            r == self@ is None,
    {
        self.target.is_none()
    }
}

impl<'a, T> Default for AtomicPointer<'a, T> {
    fn default() -> (r: Self)
        ensures
            r@ == None::<&'a T>,
    {
        Self::new()
    }
}

/// `a + b` wrapped around at 2^64, for signed values.
pub open spec fn wrap_add_i64(a: i64, b: i64) -> i64 {
    vstd::wrapping::i64_specs::wrapping_add(a, b)
}

/// `a - b` wrapped around at 2^64, for signed values.
pub open spec fn wrap_sub_i64(a: i64, b: i64) -> i64 {
    vstd::wrapping::i64_specs::wrapping_sub(a, b)
}

/// A signed counter for token bucket accounting.
///
/// Unlike `AtomicCounter` it can go negative, which makes a double release
/// visible as a negative balance.
pub struct AtomicInt {
    value: i64,
}

impl View for AtomicInt {
    type V = i64;

    closed spec fn view(&self) -> i64 {
        self.value
    }
}

impl AtomicInt {
    /// Creates a new atomic integer with the given initial value.
    pub fn new(value: i64) -> (r: Self)
        ensures
            r@ == value,
    {
        AtomicInt { value }
    }

    /// Loads the current value.
    pub fn load(&self, order: Ordering) -> (r: i64)
        ensures
            r == self@,
    {
        self.value
    }

    /// Stores a value.
    pub fn store(&mut self, val: i64, order: Ordering)
        ensures
            final(self)@ == val,
    {
        self.value = val;
    }

    /// Adds to the value (wrapping), returning the previous value.
    pub fn fetch_add(&mut self, val: i64, order: Ordering) -> (r: i64)
        ensures
            r == old(self)@,
            final(self)@ == wrap_add_i64(old(self)@, val),
    {
        let prev = self.value;
        self.value = self.value.wrapping_add(val);
        prev
    }

    /// Subtracts from the value (wrapping), returning the previous value.
    pub fn fetch_sub(&mut self, val: i64, order: Ordering) -> (r: i64)
        ensures
            r == old(self)@,
            final(self)@ == wrap_sub_i64(old(self)@, val),
    {
        let prev = self.value;
        self.value = self.value.wrapping_sub(val);
        prev
    }

    /// Swaps the value, returning the previous value.
    pub fn swap(&mut self, val: i64, order: Ordering) -> (r: i64)
        ensures
            r == old(self)@,
            final(self)@ == val,
    {
        let prev = self.value;
        self.value = val;
        prev
    }

    /// Stores `new` if the value equals `current`.
    pub fn compare_exchange(&mut self, current: i64, new: i64, success: Ordering, failure: Ordering) -> (r:
        Result<i64, i64>)
        ensures
            old(self)@ == current ==> r == Ok::<i64, i64>(current) && final(self)@ == new,
            old(self)@ != current ==> r == Err::<i64, i64>(old(self)@) && final(self)@ == old(self)@,
    {
        if self.value == current {
            self.value = new;
            Ok(current)
        } else {
            Err(self.value)
        }
    }

    /// Returns `true` if the value is negative.
    pub fn is_negative(&self, order: Ordering) -> (r: bool)
        ensures
            r == (self@ < 0),
    {
        self.value < 0
    }

    /// Returns `true` if the value is zero.
    pub fn is_zero(&self, order: Ordering) -> (r: bool)
        ensures
            r == (self@ == 0),
    {
        self.value == 0
    }
}

impl Default for AtomicInt {
    fn default() -> (r: Self)
        ensures
            r@ == 0,
    {
        Self::new(0)
    }
}

} // verus!
