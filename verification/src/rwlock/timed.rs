//! The bookkeeping of a write lock taken with a timeout.
//!
//! A timed lock records which agent and thread hold its write side and
//! since when, counts write attempts and timeouts, and answers a timeout
//! with an error that names the slot and the holder it found. The blocking
//! itself is done by the lock that owns this record; this record is told
//! what happened and keeps the books.

use crate::atomic::wrap_add_usize;
use crate::error::LockTimeoutError;
use crate::outside::{duration_from_nanos, duration_nanos};
use std::time::Duration;
use vstd::prelude::*;

verus! {

/// `0` stands for "nobody"; any other value is held.
pub open spec fn held(v: u64) -> Option<u64> {
    if v == 0 {
        None
    } else {
        Some(v)
    }
}

/// What a timed write lock knows about its holder and its history.
#[derive(Debug)]
pub struct TimedLockState {
    slot_name: String,
    holder_agent_id: u64,
    holder_thread_id: u64,
    acquisition_timestamp: u64,
    write_acquire_count: usize,
    timeout_count: usize,
}

impl TimedLockState {
    /// The slot's name, for reports.
    pub closed spec fn spec_slot_name(&self) -> Seq<char> {
        self.slot_name@
    }

    /// The recorded holder agent; `0` when none.
    pub closed spec fn spec_holder_agent(&self) -> u64 {
        self.holder_agent_id
    }

    /// The recorded holder thread; `0` when none.
    pub closed spec fn spec_holder_thread(&self) -> u64 {
        self.holder_thread_id
    }

    /// When the write side was taken, in nanoseconds since the epoch; `0`
    /// when not held.
    pub closed spec fn spec_acquired_at(&self) -> u64 {
        self.acquisition_timestamp
    }

    /// How many write acquisitions were attempted.
    pub closed spec fn spec_write_acquire_count(&self) -> usize {
        self.write_acquire_count
    }

    /// How many write acquisitions timed out.
    pub closed spec fn spec_timeout_count(&self) -> usize {
        self.timeout_count
    }

    /// A fresh record for the slot named `slot_name`: no holder, no history.
    pub fn with_slot_name(slot_name: &str) -> (r: Self)
        ensures
            r.spec_slot_name() == slot_name@,
            r.spec_holder_agent() == 0,
            r.spec_holder_thread() == 0,
            r.spec_acquired_at() == 0,
            r.spec_write_acquire_count() == 0,
            r.spec_timeout_count() == 0,
    {
        TimedLockState {
            slot_name: String::from_str(slot_name),
            holder_agent_id: 0,
            holder_thread_id: 0,
            acquisition_timestamp: 0,
            write_acquire_count: 0,
            timeout_count: 0,
        }
    }

    /// A fresh record for a slot with no name given.
    pub fn new() -> (r: Self)
        ensures
            r.spec_slot_name() == "unknown"@,
            r.spec_holder_agent() == 0,
            r.spec_holder_thread() == 0,
            r.spec_acquired_at() == 0,
            r.spec_write_acquire_count() == 0,
            r.spec_timeout_count() == 0,
    {
        Self::with_slot_name("unknown")
    }

    /// Counts one attempt to take the write side (wrapping, as an atomic
    /// counter does).
    pub fn record_attempt(&mut self)
        ensures
            final(self).spec_write_acquire_count() == wrap_add_usize(
                old(self).spec_write_acquire_count(),
                1,
            ),
            final(self).spec_timeout_count() == old(self).spec_timeout_count(),
            final(self).spec_holder_agent() == old(self).spec_holder_agent(),
            final(self).spec_holder_thread() == old(self).spec_holder_thread(),
            final(self).spec_acquired_at() == old(self).spec_acquired_at(),
            final(self).spec_slot_name() == old(self).spec_slot_name(),
    {
        self.write_acquire_count = self.write_acquire_count.wrapping_add(1);
    }

    /// Records that `agent_id` on thread `thread_id` took the write side at
    /// `now_nanos`.
    pub fn set_holder(&mut self, agent_id: u64, thread_id: u64, now_nanos: u64)
        ensures
            final(self).spec_holder_agent() == agent_id,
            final(self).spec_holder_thread() == thread_id,
            final(self).spec_acquired_at() == now_nanos,
            final(self).spec_write_acquire_count() == old(self).spec_write_acquire_count(),
            final(self).spec_timeout_count() == old(self).spec_timeout_count(),
            final(self).spec_slot_name() == old(self).spec_slot_name(),
    {
        self.holder_agent_id = agent_id;
        self.holder_thread_id = thread_id;
        self.acquisition_timestamp = now_nanos;
    }

    /// Counts a timed-out attempt and builds its error: the slot's name,
    /// slot id 0, how long the attempt waited, and the holder agent and
    /// thread where they are known (`None` where none is recorded).
    pub fn record_timeout(&mut self, waited: Duration) -> (r: LockTimeoutError)
        ensures
            final(self).spec_timeout_count() == wrap_add_usize(old(self).spec_timeout_count(), 1),
            final(self).spec_write_acquire_count() == old(self).spec_write_acquire_count(),
            final(self).spec_holder_agent() == old(self).spec_holder_agent(),
            final(self).spec_holder_thread() == old(self).spec_holder_thread(),
            final(self).spec_acquired_at() == old(self).spec_acquired_at(),
            final(self).spec_slot_name() == old(self).spec_slot_name(),
            r.slot_id == 0,
            r.slot_name@ == old(self).spec_slot_name(),
            r.timeout_duration == waited,
            r.holder_agent_id == held(old(self).spec_holder_agent()),
            r.holder_thread_id == held(old(self).spec_holder_thread()),
    {
        self.timeout_count = self.timeout_count.wrapping_add(1);
        let mut err = LockTimeoutError::new(self.slot_name.as_str(), waited).with_slot_id(0);
        if self.holder_agent_id != 0 {
            err = err.with_holder_agent(self.holder_agent_id);
        }
        if self.holder_thread_id != 0 {
            err = err.with_holder_thread(self.holder_thread_id);
        }
        err
    }

    /// The agent holding the write side, if one was recorded.
    pub fn holder_agent_id(&self) -> (r: Option<u64>)
        ensures
            r == held(self.spec_holder_agent()),
    {
        if self.holder_agent_id == 0 {
            None
        } else {
            Some(self.holder_agent_id)
        }
    }

    /// The thread holding the write side, if one was recorded.
    pub fn holder_thread_id(&self) -> (r: Option<u64>)
        ensures
            r == held(self.spec_holder_thread()),
    {
        if self.holder_thread_id == 0 {
            None
        } else {
            Some(self.holder_thread_id)
        }
    }

    /// When the write side was taken, if it is held.
    pub fn acquisition_time(&self) -> (r: Option<u64>)
        ensures
            r == held(self.spec_acquired_at()),
    {
        if self.acquisition_timestamp == 0 {
            None
        } else {
            Some(self.acquisition_timestamp)
        }
    }

    /// How long the write side has been held at `now_nanos` (nanoseconds
    /// since the epoch), if it is held; zero for a `now_nanos` before the
    /// acquisition.
    pub fn held_duration(&self, now_nanos: u64) -> (r: Option<Duration>)
        ensures
            r is None <==> self.spec_acquired_at() == 0,
            r matches Some(d) ==> duration_nanos(d) == if now_nanos >= self.spec_acquired_at() {
                now_nanos - self.spec_acquired_at()
            } else {
                0
            },
    {
        if self.acquisition_timestamp == 0 {
            None
        } else {
            Some(duration_from_nanos(now_nanos.saturating_sub(self.acquisition_timestamp)))
        }
    }

    /// Forgets the holder once the write side is released.
    pub fn release_agent_tracking(&mut self)
        ensures
            final(self).spec_holder_agent() == 0,
            final(self).spec_holder_thread() == 0,
            final(self).spec_acquired_at() == 0,
            final(self).spec_write_acquire_count() == old(self).spec_write_acquire_count(),
            final(self).spec_timeout_count() == old(self).spec_timeout_count(),
            final(self).spec_slot_name() == old(self).spec_slot_name(),
    {
        self.holder_agent_id = 0;
        self.holder_thread_id = 0;
        self.acquisition_timestamp = 0;
    }

    /// The slot's name.
    pub fn slot_name(&self) -> (r: &str)
        ensures
            r@ == self.spec_slot_name(),
    {
        self.slot_name.as_str()
    }

    /// How many write acquisitions were attempted.
    pub fn write_acquire_count(&self) -> (r: usize)
        ensures
            r == self.spec_write_acquire_count(),
    {
        self.write_acquire_count
    }

    /// How many write acquisitions timed out.
    pub fn timeout_count(&self) -> (r: usize)
        ensures
            r == self.spec_timeout_count(),
    {
        self.timeout_count
    }
}

} // verus!
