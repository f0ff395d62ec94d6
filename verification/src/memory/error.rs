//! Error types of the memory system, and the Lamport clock that orders every
//! event in it.
//!
//! The clock is a value of its own here: whoever owns the process-wide clock
//! passes it to `advance_lamport`, `current_lamport` and `sync_lamport`.

use vstd::prelude::*;

verus! {

/// Errors from memory mapping operations. Each names the region.
#[derive(Debug)]
pub enum MmapError {
    /// Failed to allocate anonymous shared memory.
    AllocationFailed { name: &'static str, source: std::io::Error },
    /// Failed to seal a region as read-only.
    SealFailed { name: &'static str, source: std::io::Error },
    /// Failed to restore read-write access.
    UnsealFailed { name: &'static str, source: std::io::Error },
}

/// All slots of a slab are allocated.
///
/// This is no panic condition: the caller refuses the goal.
#[derive(Debug, Clone, Copy)]
pub struct SlabExhausted {
    pub name: &'static str,
    pub slot_count: usize,
    pub allocated_count: usize,
}

/// A write lock of the mutable region could not be taken in time.
#[derive(Debug, Clone, Copy, PartialEq, Eq, Structural)]
pub struct LockTimeoutError {
    pub slot_id: u64,
    pub holder_agent_id: u64,
    pub waited_ms: u64,
    pub lamport_ts: u64,
}

/// An agent attempted to access a slot outside its namespace.
#[derive(Debug, Clone, Copy)]
pub struct NamespaceViolationError {
    pub agent_id: u64,
    pub slot_id: u64,
    pub operation: &'static str,
    pub lamport_ts: u64,
}

/// Errors of the event log buffer.
#[derive(Debug, Clone, Copy, PartialEq, Eq, Structural)]
pub enum BufferError {
    /// The writer advanced by more than the ring's capacity during a read.
    RingLapped { delta: u64 },
    /// The emergency buffer is full while the database is not ready.
    EmergencyBufferFull { used: usize, capacity: usize },
    /// An event record is larger than the buffer.
    EventTooLarge { size: usize, capacity: usize },
    /// The buffer that the event was meant for has no room left.
    Full,
}

/// A Lamport clock: a counter that orders events by happened-before.
#[derive(Debug)]
pub struct LamportClock {
    value: u64,
}

impl View for LamportClock {
    type V = u64;

    closed spec fn view(&self) -> u64 {
        self.value
    }
}

impl LamportClock {
    /// A clock at zero.
    pub fn new() -> (r: Self)
        ensures
            r@ == 0,
    {
        LamportClock { value: 0 }
    }
}

impl Default for LamportClock {
    fn default() -> (r: Self)
        ensures
            r@ == 0,
    {
        LamportClock::new()
    }
}

/// Advances the clock by one and returns the new value.
///
/// Called on every successful write to the mutable region.
pub fn advance_lamport(clock: &mut LamportClock) -> (r: u64)
    requires
        old(clock)@ < u64::MAX,
    ensures
        r == old(clock)@ + 1,
        final(clock)@ == r,
{
    clock.value = clock.value + 1;
    clock.value
}

/// The current timestamp, without advancing.
pub fn current_lamport(clock: &LamportClock) -> (r: u64)
    ensures
        r == clock@,
{
    clock.value
}

/// Raises the clock to at least `other`, to keep causality with events
/// received from other processes. The clock never goes down.
pub fn sync_lamport(clock: &mut LamportClock, other: u64)
    ensures
        final(clock)@ == if other > old(clock)@ { other } else { old(clock)@ },
{
    if other > clock.value {
        clock.value = other;
    }
}

} // verus!
