//! The bookkeeping of the instrumented and the reader-priority locks.
//!
//! An instrumented lock counts its acquisitions and how many of them found
//! the lock taken. A reader-priority lock counts the writers waiting for it
//! and makes each arriving reader back off for as many spins as there are
//! waiting writers, up to a fairness threshold. The locks that block own
//! these records and report to them what happened.

use crate::atomic::{wrap_add_usize, wrap_sub_usize};
use vstd::prelude::*;

verus! {

/// Acquisition counts of a lock, and how many acquisitions were contended.
#[derive(Debug, Clone, Copy)]
pub struct ContentionCounters {
    read_count: usize,
    write_count: usize,
    contended_reads: usize,
    contended_writes: usize,
}

impl ContentionCounters {
    /// Read acquisitions counted.
    pub closed spec fn spec_read_count(&self) -> usize {
        self.read_count
    }

    /// Write acquisitions counted.
    pub closed spec fn spec_write_count(&self) -> usize {
        self.write_count
    }

    /// Read acquisitions that found the lock taken.
    pub closed spec fn spec_contended_reads(&self) -> usize {
        self.contended_reads
    }

    /// Write acquisitions that found the lock taken.
    pub closed spec fn spec_contended_writes(&self) -> usize {
        self.contended_writes
    }

    /// No side has more contended acquisitions than acquisitions, so each
    /// contention ratio lies between 0 and 1.
    pub open spec fn wf(&self) -> bool {
        &&& self.spec_contended_reads() <= self.spec_read_count()
        &&& self.spec_contended_writes() <= self.spec_write_count()
    }

    /// All counts zero.
    pub fn new() -> (r: Self)
        ensures
            r.wf(),
            r.spec_read_count() == 0,
            r.spec_write_count() == 0,
            r.spec_contended_reads() == 0,
            r.spec_contended_writes() == 0,
    {
        ContentionCounters { read_count: 0, write_count: 0, contended_reads: 0, contended_writes: 0 }
    }

    /// Counts a read acquisition, contended if it had to wait. The counts
    /// wrap, as atomic counters do; below the wrap the invariant holds.
    pub fn record_read(&mut self, contended: bool)
        ensures
            final(self).spec_read_count() == wrap_add_usize(old(self).spec_read_count(), 1),
            final(self).spec_contended_reads() == if contended {
                wrap_add_usize(old(self).spec_contended_reads(), 1)
            } else {
                old(self).spec_contended_reads()
            },
            final(self).spec_write_count() == old(self).spec_write_count(),
            final(self).spec_contended_writes() == old(self).spec_contended_writes(),
            old(self).wf() && old(self).spec_read_count() < usize::MAX ==> final(self).wf(),
    {
        self.read_count = self.read_count.wrapping_add(1);
        if contended {
            self.contended_reads = self.contended_reads.wrapping_add(1);
        }
    }

    /// Counts a write acquisition, contended if it had to wait. The counts
    /// wrap, as atomic counters do; below the wrap the invariant holds.
    pub fn record_write(&mut self, contended: bool)
        ensures
            final(self).spec_write_count() == wrap_add_usize(old(self).spec_write_count(), 1),
            final(self).spec_contended_writes() == if contended {
                wrap_add_usize(old(self).spec_contended_writes(), 1)
            } else {
                old(self).spec_contended_writes()
            },
            final(self).spec_read_count() == old(self).spec_read_count(),
            final(self).spec_contended_reads() == old(self).spec_contended_reads(),
            old(self).wf() && old(self).spec_write_count() < usize::MAX ==> final(self).wf(),
    {
        self.write_count = self.write_count.wrapping_add(1);
        if contended {
            self.contended_writes = self.contended_writes.wrapping_add(1);
        }
    }

    /// Read acquisitions counted.
    pub fn read_count(&self) -> (r: usize)
        ensures
            r == self.spec_read_count(),
    {
        self.read_count
    }

    /// Write acquisitions counted.
    pub fn write_count(&self) -> (r: usize)
        ensures
            r == self.spec_write_count(),
    {
        self.write_count
    }

    /// Read acquisitions that had to wait.
    pub fn contended_reads(&self) -> (r: usize)
        ensures
            r == self.spec_contended_reads(),
    {
        self.contended_reads
    }

    /// Write acquisitions that had to wait.
    pub fn contended_writes(&self) -> (r: usize)
        ensures
            r == self.spec_contended_writes(),
    {
        self.contended_writes
    }

    /// Sets all counts back to zero.
    pub fn reset_metrics(&mut self)
        ensures
            final(self).wf(),
            final(self).spec_read_count() == 0,
            final(self).spec_write_count() == 0,
            final(self).spec_contended_reads() == 0,
            final(self).spec_contended_writes() == 0,
    {
        self.read_count = 0;
        self.write_count = 0;
        self.contended_reads = 0;
        self.contended_writes = 0;
    }
}

/// The fairness threshold of a reader-priority lock made with `new`.
pub const DEFAULT_FAIRNESS_THRESHOLD: usize = 16;

/// The writers waiting for a reader-priority lock, and how far readers
/// yield to them.
#[derive(Debug, Clone, Copy)]
pub struct WriterFairness {
    pending_writers: usize,
    fairness_threshold: usize,
}

impl WriterFairness {
    /// Writers waiting.
    pub closed spec fn spec_pending_writers(&self) -> usize {
        self.pending_writers
    }

    /// The most spins a reader yields.
    pub closed spec fn spec_threshold(&self) -> usize {
        self.fairness_threshold
    }

    /// No writer waiting; readers yield at most the default threshold.
    pub fn new() -> (r: Self)
        ensures
            r.spec_pending_writers() == 0,
            r.spec_threshold() == DEFAULT_FAIRNESS_THRESHOLD,
    {
        Self::with_threshold(DEFAULT_FAIRNESS_THRESHOLD)
    }

    /// No writer waiting; readers yield at most `threshold` spins.
    pub fn with_threshold(threshold: usize) -> (r: Self)
        ensures
            r.spec_pending_writers() == 0,
            r.spec_threshold() == threshold,
    {
        WriterFairness { pending_writers: 0, fairness_threshold: threshold }
    }

    /// A writer starts to wait (wrapping, as an atomic counter does).
    pub fn writer_arrives(&mut self)
        ensures
            final(self).spec_pending_writers() == wrap_add_usize(old(self).spec_pending_writers(), 1),
            final(self).spec_threshold() == old(self).spec_threshold(),
    {
        self.pending_writers = self.pending_writers.wrapping_add(1);
    }

    /// A waiting writer got the lock (wrapping, as an atomic counter does).
    pub fn writer_leaves(&mut self)
        ensures
            final(self).spec_pending_writers() == wrap_sub_usize(old(self).spec_pending_writers(), 1),
            final(self).spec_threshold() == old(self).spec_threshold(),
    {
        self.pending_writers = self.pending_writers.wrapping_sub(1);
    }

    /// Writers waiting.
    pub fn pending_writers(&self) -> (r: usize)
        ensures
            r == self.spec_pending_writers(),
    {
        self.pending_writers
    }

    /// How many spins an arriving reader yields: one per waiting writer, at
    /// most the threshold.
    pub fn backoff_spins(&self) -> (r: usize)
        ensures
            r == if self.spec_pending_writers() <= self.spec_threshold() {
                self.spec_pending_writers()
            } else {
                self.spec_threshold()
            },
    {
        if self.pending_writers <= self.fairness_threshold {
            self.pending_writers
        } else {
            self.fairness_threshold
        }
    }
}

/// A writer that arrives and then gets the lock leaves the count of waiting
/// writers as it was.
pub proof fn lemma_writer_round_trip(pending: usize)
    ensures
        wrap_sub_usize(wrap_add_usize(pending, 1), 1) == pending,
{
}

} // verus!
