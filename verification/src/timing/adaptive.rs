//! A timer whose interval follows the phase of a goal's execution: quick
//! while it starts, slower while it executes, quick again while it
//! completes, and quickest when it stalls.

use std::time::Duration;
use vstd::prelude::*;
use crate::outside::{duration_from_millis, duration_from_secs, duration_nanos};
use crate::timing::{corrected_interval, nanos_u64, DriftCorrectedTimer, Timestamp, between, plus_duration};

verus! {

/// The phases of a goal's execution.
#[derive(Debug, Clone, Copy, PartialEq, Eq, Hash, Structural)]
pub enum Phase {
    /// The first fifth of the typical steps.
    Starting,
    /// From a fifth to four fifths of the typical steps.
    Executing,
    /// Beyond four fifths of the typical steps.
    Completing,
    /// Progress has not moved for several cycles.
    Stalled,
}

/// The name of a phase in capitals.
pub open spec fn phase_text(p: Phase) -> Seq<char> {
    match p {
        Phase::Starting => "STARTING"@,
        Phase::Executing => "EXECUTING"@,
        Phase::Completing => "COMPLETING"@,
        Phase::Stalled => "STALLED"@,
    }
}

impl Default for Phase {
    fn default() -> (r: Self)
        ensures
            r == Phase::Starting,
    {
        Phase::Starting
    }
}

impl Phase {
    /// The name of the phase in capitals, such as `STARTING`.
    pub fn to_display_string(&self) -> (r: String)
        ensures
            r@ == phase_text(*self),
    {
        proof {
            reveal_strlit("STARTING");
            reveal_strlit("EXECUTING");
            reveal_strlit("COMPLETING");
            reveal_strlit("STALLED");
        }
        match self {
            Phase::Starting => String::from_str("STARTING"),
            Phase::Executing => String::from_str("EXECUTING"),
            Phase::Completing => String::from_str("COMPLETING"),
            Phase::Stalled => String::from_str("STALLED"),
        }
    }
}

/// The interval of each phase.
#[derive(Debug, Clone, Copy)]
struct PhaseIntervals {
    starting: Duration,
    executing: Duration,
    completing: Duration,
    stalled: Duration,
}

/// Number of cycles without progress after which a goal counts as stalled.
pub const STALL_CYCLES: u32 = 3;

/// A timer that adapts its interval to the execution phase.
#[derive(Debug, Clone)]
pub struct AdaptiveTimer {
    base_interval: Duration,
    current_interval: Duration,
    min_interval: Duration,
    max_interval: Duration,
    timer: DriftCorrectedTimer,
    phase: Phase,
    phase_intervals: PhaseIntervals,
    stall_count: u32,
}

impl AdaptiveTimer {
    /// The current phase.
    pub closed spec fn spec_phase(&self) -> Phase {
        self.phase
    }

    /// The interval in force.
    pub closed spec fn spec_current_interval(&self) -> Duration {
        self.current_interval
    }

    /// The interval configured for a phase.
    pub closed spec fn interval_of(&self, p: Phase) -> Duration {
        match p {
            Phase::Starting => self.phase_intervals.starting,
            Phase::Executing => self.phase_intervals.executing,
            Phase::Completing => self.phase_intervals.completing,
            Phase::Stalled => self.phase_intervals.stalled,
        }
    }

    /// Consecutive cycles without progress.
    pub closed spec fn spec_stall_count(&self) -> u32 {
        self.stall_count
    }

    /// The smallest interval allowed.
    pub closed spec fn spec_min_interval(&self) -> Duration {
        self.min_interval
    }

    /// The largest interval allowed.
    pub closed spec fn spec_max_interval(&self) -> Duration {
        self.max_interval
    }

    /// The underlying drift-corrected timer.
    pub closed spec fn spec_timer(&self) -> DriftCorrectedTimer {
        self.timer
    }

    /// A timer in the starting phase at `base_interval`, with phase
    /// intervals of 200, 500, 150 and 100 milliseconds, bounds of 50
    /// milliseconds and 5 seconds, and no stall counted.
    pub fn new(base_interval: Duration) -> (r: Self)
        ensures
            r.spec_phase() == Phase::Starting,
            r.spec_current_interval() == base_interval,
            duration_nanos(r.interval_of(Phase::Starting)) == 200_000_000,
            duration_nanos(r.interval_of(Phase::Executing)) == 500_000_000,
            duration_nanos(r.interval_of(Phase::Completing)) == 150_000_000,
            duration_nanos(r.interval_of(Phase::Stalled)) == 100_000_000,
            duration_nanos(r.spec_min_interval()) == 50_000_000,
            duration_nanos(r.spec_max_interval()) == 5_000_000_000,
            r.spec_stall_count() == 0,
            r.spec_timer().spec_interval() == base_interval,
            !r.spec_timer().spec_running(),
    {
        let timer = DriftCorrectedTimer::new(base_interval);
        AdaptiveTimer {
            base_interval,
            current_interval: base_interval,
            min_interval: duration_from_millis(50),
            max_interval: duration_from_secs(5),
            timer,
            phase: Phase::Starting,
            phase_intervals: PhaseIntervals {
                starting: duration_from_millis(200),
                executing: duration_from_millis(500),
                completing: duration_from_millis(150),
                stalled: duration_from_millis(100),
            },
            stall_count: 0,
        }
    }

    /// Sets the smallest interval allowed.
    pub fn with_min_interval(self, min: Duration) -> (r: Self)
        ensures
            r.spec_min_interval() == min,
            r.spec_max_interval() == self.spec_max_interval(),
            r.spec_phase() == self.spec_phase(),
            r.spec_current_interval() == self.spec_current_interval(),
            forall|p: Phase| r.interval_of(p) == self.interval_of(p),
            r.spec_stall_count() == self.spec_stall_count(),
            r.spec_timer() == self.spec_timer(),
    {
        let mut t = self;
        t.min_interval = min;
        t
    }

    /// Sets the largest interval allowed.
    pub fn with_max_interval(self, max: Duration) -> (r: Self)
        ensures
            r.spec_max_interval() == max,
            r.spec_min_interval() == self.spec_min_interval(),
            r.spec_phase() == self.spec_phase(),
            r.spec_current_interval() == self.spec_current_interval(),
            forall|p: Phase| r.interval_of(p) == self.interval_of(p),
            r.spec_stall_count() == self.spec_stall_count(),
            r.spec_timer() == self.spec_timer(),
    {
        let mut t = self;
        t.max_interval = max;
        t
    }

    /// Sets the intervals of the starting, executing and completing phases,
    /// in milliseconds; the stalled phase keeps 100 milliseconds.
    pub fn with_phase_intervals(self, starting_ms: u64, executing_ms: u64, completing_ms: u64) -> (r:
        Self)
        ensures
            duration_nanos(r.interval_of(Phase::Starting)) == starting_ms * 1_000_000,
            duration_nanos(r.interval_of(Phase::Executing)) == executing_ms * 1_000_000,
            duration_nanos(r.interval_of(Phase::Completing)) == completing_ms * 1_000_000,
            duration_nanos(r.interval_of(Phase::Stalled)) == 100_000_000,
            r.spec_phase() == self.spec_phase(),
            r.spec_current_interval() == self.spec_current_interval(),
            r.spec_min_interval() == self.spec_min_interval(),
            r.spec_max_interval() == self.spec_max_interval(),
            r.spec_stall_count() == self.spec_stall_count(),
            r.spec_timer() == self.spec_timer(),
    {
        let mut t = self;
        t.phase_intervals = PhaseIntervals {
            starting: duration_from_millis(starting_ms),
            executing: duration_from_millis(executing_ms),
            completing: duration_from_millis(completing_ms),
            stalled: duration_from_millis(100),
        };
        t
    }

    /// Starts the timer at `now`.
    pub fn start(&mut self, now: Timestamp)
        ensures
            final(self).spec_timer().spec_running(),
            final(self).spec_timer().spec_next_fire().nanos == plus_duration(
                now,
                old(self).spec_timer().spec_interval(),
            ),
            final(self).spec_timer().spec_tick_count() == 0,
            final(self).spec_phase() == old(self).spec_phase(),
            final(self).spec_current_interval() == old(self).spec_current_interval(),
            forall|p: Phase| final(self).interval_of(p) == old(self).interval_of(p),
            final(self).spec_stall_count() == old(self).spec_stall_count(),
    {
        self.timer.start(now);
    }

    /// Whether a tick is due at `now`; see `DriftCorrectedTimer::tick`.
    pub fn tick(&mut self, now: Timestamp) -> (r: bool)
        requires
            old(self).spec_timer().spec_running() && now.nanos >= old(
                self,
            ).spec_timer().spec_next_fire().nanos ==> old(self).spec_timer().tick_in_range(now),
        ensures
            r == (old(self).spec_timer().spec_running() && now.nanos >= old(
                self,
            ).spec_timer().spec_next_fire().nanos),
            final(self).spec_phase() == old(self).spec_phase(),
            final(self).spec_current_interval() == old(self).spec_current_interval(),
            final(self).spec_stall_count() == old(self).spec_stall_count(),
            forall|p: Phase| final(self).interval_of(p) == old(self).interval_of(p),
            final(self).spec_min_interval() == old(self).spec_min_interval(),
            final(self).spec_max_interval() == old(self).spec_max_interval(),
            final(self).spec_timer().spec_interval() == old(self).spec_timer().spec_interval(),
            final(self).spec_timer().spec_max_drift() == old(self).spec_timer().spec_max_drift(),
            final(self).spec_timer().spec_running() == old(self).spec_timer().spec_running(),
            !r ==> final(self).spec_timer() == old(self).spec_timer(),
            r ==> {
                let drift2 = old(self).spec_timer().spec_drift() + old(self).spec_timer().lateness(now);
                &&& final(self).spec_timer().spec_drift() == drift2
                &&& final(self).spec_timer().spec_next_fire().nanos == now.nanos + corrected_interval(
                    old(self).spec_timer().spec_interval_ns(),
                    drift2 as i64,
                )
                &&& final(self).spec_timer().spec_tick_count() == old(self).spec_timer().spec_tick_count()
                    + 1
            },
    {
        self.timer.tick(now)
    }

    /// Enters `phase` and takes its interval.
    pub fn set_phase(&mut self, phase: Phase)
        ensures
            final(self).spec_phase() == phase,
            final(self).spec_current_interval() == old(self).interval_of(phase),
            final(self).spec_timer().spec_interval() == old(self).interval_of(phase),
            final(self).spec_timer().spec_running() == old(self).spec_timer().spec_running(),
            final(self).spec_timer().spec_next_fire() == old(self).spec_timer().spec_next_fire(),
            final(self).spec_timer().spec_drift() == old(self).spec_timer().spec_drift(),
            final(self).spec_timer().spec_tick_count() == old(self).spec_timer().spec_tick_count(),
            final(self).spec_timer().spec_max_drift() == nanos_u64(old(self).interval_of(phase))
                / 10,
            forall|p: Phase| final(self).interval_of(p) == old(self).interval_of(p),
            final(self).spec_stall_count() == old(self).spec_stall_count(),
            final(self).spec_min_interval() == old(self).spec_min_interval(),
            final(self).spec_max_interval() == old(self).spec_max_interval(),
    {
        self.phase = phase;
        self.current_interval = match phase {
            Phase::Starting => self.phase_intervals.starting,
            Phase::Executing => self.phase_intervals.executing,
            Phase::Completing => self.phase_intervals.completing,
            Phase::Stalled => self.phase_intervals.stalled,
        };
        self.timer.adjust_interval(self.current_interval);
    }

    /// Counts a cycle of the stall detector. `no_progress` tells whether the
    /// progress moved by less than one hundredth since the last cycle. After
    /// three such cycles in a row the timer enters the stalled phase and
    /// `true` is returned; a cycle with progress starts the count again.
    pub fn record_progress(&mut self, no_progress: bool) -> (r: bool)
        requires
            no_progress ==> old(self).spec_stall_count() < u32::MAX,
        ensures
            no_progress ==> final(self).spec_stall_count() == old(self).spec_stall_count() + 1,
            !no_progress ==> final(self).spec_stall_count() == 0,
            r == (no_progress && old(self).spec_stall_count() + 1 >= STALL_CYCLES),
            r ==> final(self).spec_phase() == Phase::Stalled && final(self).spec_current_interval()
                == old(self).interval_of(Phase::Stalled),
            !r ==> final(self).spec_phase() == old(self).spec_phase()
                && final(self).spec_current_interval() == old(self).spec_current_interval(),
            r ==> {
                &&& final(self).spec_timer().spec_interval() == old(self).interval_of(Phase::Stalled)
                &&& final(self).spec_timer().spec_max_drift() == nanos_u64(
                    old(self).interval_of(Phase::Stalled),
                ) / 10
                &&& final(self).spec_timer().spec_running() == old(self).spec_timer().spec_running()
                &&& final(self).spec_timer().spec_next_fire() == old(self).spec_timer().spec_next_fire()
                &&& final(self).spec_timer().spec_drift() == old(self).spec_timer().spec_drift()
                &&& final(self).spec_timer().spec_tick_count() == old(self).spec_timer().spec_tick_count()
            },
            !r ==> final(self).spec_timer() == old(self).spec_timer(),
            forall|p: Phase| final(self).interval_of(p) == old(self).interval_of(p),
            final(self).spec_min_interval() == old(self).spec_min_interval(),
            final(self).spec_max_interval() == old(self).spec_max_interval(),
    {
        if no_progress {
            self.stall_count = self.stall_count + 1;
            if self.stall_count >= STALL_CYCLES {
                self.set_phase(Phase::Stalled);
                return true;
            }
        } else {
            self.stall_count = 0;
        }
        false
    }

    /// Consecutive cycles without progress so far.
    pub fn stall_count(&self) -> (r: u32)
        ensures
            r == self.spec_stall_count(),
    {
        self.stall_count
    }

    /// The current phase.
    pub fn phase(&self) -> (r: Phase)
        ensures
            r == self.spec_phase(),
    {
        self.phase
    }

    /// The interval in force.
    pub fn current_interval(&self) -> (r: Duration)
        ensures
            r == self.spec_current_interval(),
    {
        self.current_interval
    }

    /// The time left at `now` until the next tick.
    pub fn remaining(&self, now: Timestamp) -> (r: Duration)
        ensures
            duration_nanos(r) == if self.spec_timer().spec_running() {
                between(self.spec_timer().spec_next_fire(), now)
            } else {
                0
            },
    {
        self.timer.remaining(now)
    }

    /// The size of the accumulated drift.
    pub fn drift(&self) -> (r: Duration)
        requires
            self.spec_timer().spec_drift() != i64::MIN,
        ensures
            duration_nanos(r) == if self.spec_timer().spec_drift() < 0 {
                -self.spec_timer().spec_drift()
            } else {
                self.spec_timer().spec_drift() as int
            },
    {
        self.timer.drift()
    }

    /// Restarts the timer at `now`, back in the starting phase with no stall
    /// counted. The interval in force is kept.
    pub fn reset(&mut self, now: Timestamp)
        ensures
            final(self).spec_phase() == Phase::Starting,
            final(self).spec_stall_count() == 0,
            final(self).spec_current_interval() == old(self).spec_current_interval(),
            final(self).spec_timer().spec_running(),
            final(self).spec_timer().spec_tick_count() == 0,
            final(self).spec_timer().spec_drift() == 0,
            final(self).spec_timer().spec_next_fire().nanos == plus_duration(
                now,
                old(self).spec_timer().spec_interval(),
            ),
            forall|p: Phase| final(self).interval_of(p) == old(self).interval_of(p),
    {
        self.timer.reset(now);
        self.phase = Phase::Starting;
        self.stall_count = 0;
    }
}

impl Default for AdaptiveTimer {
    /// A timer with a base interval of 500 milliseconds.
    fn default() -> (r: Self)
        ensures
            r.spec_phase() == Phase::Starting,
            duration_nanos(r.spec_current_interval()) == 500_000_000,
            r.spec_stall_count() == 0,
    {
        AdaptiveTimer::new(duration_from_millis(500))
    }
}

} // verus!
