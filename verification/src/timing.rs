//! Timestamps, drift-corrected periodic timers, heartbeats and deadlines.
//!
//! Functions that depend on the current time take it as a `now` argument,
//! so that each of them is a function of its inputs.

use std::time::Duration;
use vstd::prelude::*;

pub mod adaptive;
pub mod system_time;
use crate::atomic::AtomicTimestamp;
use crate::outside::{duration_as_nanos, duration_from_nanos, duration_max, duration_nanos};
use crate::text::{
    decimal, decimal_string, decimal_value, is_digit, lemma_decimal_reads_back,
    lemma_zero_padded_reads_back, three_digit_string, zero_padded,
};

verus! {

/// Nanoseconds per microsecond
pub const NANOS_PER_MICRO: u64 = 1_000;

/// Nanoseconds per millisecond
pub const NANOS_PER_MILLI: u64 = 1_000_000;

/// Nanoseconds per second
pub const NANOS_PER_SEC: u64 = 1_000_000_000;

/// Nanoseconds per minute
pub const NANOS_PER_MINUTE: u64 = 60_000_000_000;

/// Nanoseconds per hour
pub const NANOS_PER_HOUR: u64 = 3_600_000_000_000;

/// The default interval for Oracle polling (200ms).
pub const ORACLE_POLL_INTERVAL_MS: u64 = 200;

/// The default interval for kernel heartbeat (1s).
pub const HEARTBEAT_INTERVAL_MS: u64 = 1_000;

/// The default stall threshold for L2 monitor (3s).
pub const STALL_THRESHOLD_MS: u64 = 3_000;

/// `a - b`, or zero when `b > a`.
pub open spec fn sat_sub(a: int, b: int) -> int {
    if a > b {
        a - b
    } else {
        0
    }
}

/// `a + b`, or `u64::MAX` when the sum does not fit.
pub open spec fn sat_add(a: int, b: int) -> int {
    if a + b > u64::MAX {
        u64::MAX as int
    } else {
        a + b
    }
}

/// The length of a duration in nanoseconds, cut to the low 64 bits.
pub open spec fn nanos_u64(d: Duration) -> u64 {
    duration_nanos(d) as u64
}

/// A point in time, in nanoseconds since an unspecified epoch.
#[derive(Debug, Clone, Copy, PartialEq, Eq, PartialOrd, Ord, Hash, Structural)]
pub struct Timestamp {
    /// Nanoseconds since some unspecified epoch (monotonic).
    pub nanos: u64,
}

impl Timestamp {
    /// Creates a new timestamp from nanoseconds.
    pub fn from_nanos(nanos: u64) -> (r: Self)
        ensures
            r.nanos == nanos,
    {
        Timestamp { nanos }
    }

    /// Creates a new timestamp from microseconds.
    pub fn from_micros(micros: u64) -> (r: Self)
        requires
            micros * NANOS_PER_MICRO <= u64::MAX,
        ensures
            r.nanos == micros * NANOS_PER_MICRO,
    {
        Timestamp { nanos: micros * NANOS_PER_MICRO }
    }

    /// Creates a new timestamp from milliseconds.
    pub fn from_millis(millis: u64) -> (r: Self)
        requires
            millis * NANOS_PER_MILLI <= u64::MAX,
        ensures
            r.nanos == millis * NANOS_PER_MILLI,
    {
        Timestamp { nanos: millis * NANOS_PER_MILLI }
    }

    /// Creates a new timestamp from seconds.
    pub fn from_secs(secs: u64) -> (r: Self)
        requires
            secs * NANOS_PER_SEC <= u64::MAX,
        ensures
            r.nanos == secs * NANOS_PER_SEC,
    {
        Timestamp { nanos: secs * NANOS_PER_SEC }
    }

    /// Creates a timestamp from a `Duration`, keeping the low 64 bits of its
    /// length in nanoseconds.
    pub fn from_duration(duration: Duration) -> (r: Self)
        ensures
            r.nanos == nanos_u64(duration),
    {
        let n = duration_as_nanos(duration);
        Timestamp { nanos: n as u64 }
    }

    /// Returns the timestamp as nanoseconds.
    pub fn as_nanos(&self) -> (r: u64)
        ensures
            r == self.nanos,
    {
        self.nanos
    }

    /// Returns the timestamp as microseconds (truncated).
    pub fn as_micros(&self) -> (r: u64)
        ensures
            r == self.nanos / NANOS_PER_MICRO,
    {
        self.nanos / NANOS_PER_MICRO
    }

    /// Returns the timestamp as milliseconds (truncated).
    pub fn as_millis(&self) -> (r: u64)
        ensures
            r == self.nanos / NANOS_PER_MILLI,
    {
        self.nanos / NANOS_PER_MILLI
    }

    /// Returns the timestamp as seconds (truncated).
    pub fn as_secs(&self) -> (r: u64)
        ensures
            r == self.nanos / NANOS_PER_SEC,
    {
        self.nanos / NANOS_PER_SEC
    }

    /// Returns the fractional seconds part in nanoseconds.
    pub fn subsec_nanos(&self) -> (r: u64)
        ensures
            r == self.nanos % NANOS_PER_SEC,
    {
        self.nanos % NANOS_PER_SEC
    }

    /// Returns the fractional seconds part in milliseconds.
    pub fn subsec_millis(&self) -> (r: u64)
        ensures
            r == (self.nanos % NANOS_PER_SEC) / NANOS_PER_MILLI,
    {
        (self.nanos % NANOS_PER_SEC) / NANOS_PER_MILLI
    }

    /// Converts to a `Duration`.
    pub fn as_duration(&self) -> (r: Duration)
        ensures
            duration_nanos(r) == self.nanos,
    {
        duration_from_nanos(self.nanos)
    }

    /// Returns the time elapsed from this timestamp until `now`, zero if
    /// `now` is earlier.
    pub fn elapsed(&self, now: Timestamp) -> (r: Duration)
        ensures
            duration_nanos(r) == sat_sub(now.nanos as int, self.nanos as int),
    {
        duration_from_nanos(now.nanos.saturating_sub(self.nanos))
    }

    /// Returns the elapsed time until `now` in whole milliseconds.
    pub fn elapsed_millis(&self, now: Timestamp) -> (r: u64)
        ensures
            r == sat_sub(now.nanos as int, self.nanos as int) / (NANOS_PER_MILLI as int),
    {
        now.nanos.saturating_sub(self.nanos) / NANOS_PER_MILLI
    }

    /// Returns the elapsed time until `now` in whole microseconds.
    pub fn elapsed_micros(&self, now: Timestamp) -> (r: u64)
        ensures
            r == sat_sub(now.nanos as int, self.nanos as int) / (NANOS_PER_MICRO as int),
    {
        now.nanos.saturating_sub(self.nanos) / NANOS_PER_MICRO
    }

    /// Returns `true` if this timestamp is zero (epoch).
    pub fn is_zero(&self) -> (r: bool)
        ensures
            r == (self.nanos == 0),
    {
        self.nanos == 0
    }

    /// Returns `true` if this timestamp is at or before `now`.
    pub fn is_elapsed(&self, now: Timestamp) -> (r: bool)
        ensures
            r == (now.nanos >= self.nanos),
    {
        now.nanos >= self.nanos
    }

    /// Adds a duration to this timestamp, saturating at `u64::MAX`.
    pub fn add_duration(&self, duration: Duration) -> (r: Self)
        ensures
            r.nanos == sat_add(self.nanos as int, nanos_u64(duration) as int),
    {
        let d = duration_as_nanos(duration);
        Timestamp { nanos: self.nanos.saturating_add(d as u64) }
    }

    /// Subtracts a duration from this timestamp, saturating at zero.
    pub fn sub_duration(&self, duration: Duration) -> (r: Self)
        ensures
            r.nanos == sat_sub(self.nanos as int, nanos_u64(duration) as int),
    {
        let d = duration_as_nanos(duration);
        Timestamp { nanos: self.nanos.saturating_sub(d as u64) }
    }

    /// Returns the duration from `earlier` until this timestamp, zero if
    /// `earlier` is later.
    pub fn duration_since(&self, earlier: Timestamp) -> (r: Duration)
        ensures
            duration_nanos(r) == sat_sub(self.nanos as int, earlier.nanos as int),
    {
        duration_from_nanos(self.nanos.saturating_sub(earlier.nanos))
    }

    /// Returns the signed difference `self - other` in nanoseconds, each side
    /// read as an `i64`.
    pub fn diff(&self, other: Timestamp) -> (r: i64)
        requires
            i64::MIN <= (self.nanos as i64) - (other.nanos as i64) <= i64::MAX,
        ensures
            r == (self.nanos as i64) - (other.nanos as i64),
    {
        self.nanos as i64 - other.nanos as i64
    }

    /// The display text: `S.mmms` from one second on, `Nms` below.
    pub fn to_display_string(&self) -> (r: String)
        ensures
            r@ == timestamp_text(*self),
    {
        let secs = self.nanos / NANOS_PER_SEC;
        let millis = (self.nanos % NANOS_PER_SEC) / NANOS_PER_MILLI;
        if secs > 0 {
            let mut s = decimal_string(secs);
            s.append(".");
            let m = three_digit_string(millis);
            s.append(m.as_str());
            s.append("s");
            s
        } else {
            let mut s = decimal_string(self.nanos / NANOS_PER_MILLI);
            s.append("ms");
            s
        }
    }
}

/// The timestamp `d` after `t`, saturating at `u64::MAX`.
pub open spec fn plus_duration(t: Timestamp, d: Duration) -> int {
    sat_add(t.nanos as int, nanos_u64(d) as int)
}

/// The timestamp `d` before `t`, saturating at zero.
pub open spec fn minus_duration(t: Timestamp, d: Duration) -> int {
    sat_sub(t.nanos as int, nanos_u64(d) as int)
}

/// The time from `b` to `a`, zero if `b` is later.
pub open spec fn between(a: Timestamp, b: Timestamp) -> int {
    sat_sub(a.nanos as int, b.nanos as int)
}

/// The display text of a timestamp.
pub open spec fn timestamp_text(t: Timestamp) -> Seq<char> {
    let secs = t.nanos / NANOS_PER_SEC;
    if secs > 0 {
        decimal(secs as nat) + "."@ + zero_padded(((t.nanos % NANOS_PER_SEC) / NANOS_PER_MILLI) as nat, 3)
            + "s"@
    } else {
        decimal((t.nanos / NANOS_PER_MILLI) as nat) + "ms"@
    }
}

/// The text of a timestamp of at least one second reads back as the
/// timestamp: it ends in a point, exactly three digits and `s`; the digits
/// before the point read as the whole seconds and the three after it as the
/// milliseconds within the second.
pub proof fn lemma_timestamp_text_reads_back(t: Timestamp)
    requires
        t.nanos >= NANOS_PER_SEC,
    ensures
        ({
            let txt = timestamp_text(t);
            let p = txt.len() - 5;
            &&& p >= 1
            &&& txt[p] == '.'
            &&& txt[txt.len() - 1] == 's'
            &&& forall|i: int| 0 <= i < p ==> is_digit(#[trigger] txt[i])
            &&& forall|i: int| p < i < p + 4 ==> is_digit(#[trigger] txt[i])
            &&& decimal_value(txt.subrange(0, p)) == t.nanos / 1_000_000_000
            &&& decimal_value(txt.subrange(p + 1, p + 4)) == (t.nanos % 1_000_000_000) / 1_000_000
        }),
{
    reveal_strlit(".");
    reveal_strlit("s");
    let secs = (t.nanos / NANOS_PER_SEC) as nat;
    let ms = ((t.nanos % NANOS_PER_SEC) / NANOS_PER_MILLI) as nat;
    lemma_decimal_reads_back(secs);
    lemma_zero_padded_reads_back(ms, 3);
    let a = decimal(secs);
    let b = zero_padded(ms, 3);
    assert(decimal(ms).len() <= 3) by {
        crate::text::lemma_decimal_len(ms);
    }
    let txt = timestamp_text(t);
    assert(txt =~= a + "."@ + b + "s"@);
    let p = txt.len() - 5;
    assert(p == a.len());
    assert(txt.subrange(0, p) =~= a);
    assert(txt.subrange(p + 1, p + 4) =~= b);
    assert forall|i: int| 0 <= i < p implies is_digit(#[trigger] txt[i]) by {
        assert(txt[i] == a[i]);
    }
    assert forall|i: int| p < i < p + 4 implies is_digit(#[trigger] txt[i]) by {
        assert(txt[i] == b[i - p - 1]);
    }
}

impl Default for Timestamp {
    fn default() -> (r: Self)
        ensures
            r.nanos == 0,
    {
        Timestamp { nanos: 0 }
    }
}

impl std::ops::Add<Duration> for Timestamp {
    type Output = Timestamp;

    fn add(self, rhs: Duration) -> (r: Timestamp)
        ensures
            r.nanos == plus_duration(self, rhs),
    {
        self.add_duration(rhs)
    }
}

impl vstd::std_specs::ops::AddSpecImpl<Duration> for Timestamp {
    open spec fn obeys_add_spec() -> bool {
        true
    }

    open spec fn add_req(self, rhs: Duration) -> bool {
        true
    }

    open spec fn add_spec(self, rhs: Duration) -> Timestamp {
        Timestamp { nanos: plus_duration(self, rhs) as u64 }
    }
}

impl std::ops::Sub<Duration> for Timestamp {
    type Output = Timestamp;

    fn sub(self, rhs: Duration) -> (r: Timestamp)
        ensures
            r.nanos == minus_duration(self, rhs),
    {
        self.sub_duration(rhs)
    }
}

impl vstd::std_specs::ops::SubSpecImpl<Duration> for Timestamp {
    open spec fn obeys_sub_spec() -> bool {
        true
    }

    open spec fn sub_req(self, rhs: Duration) -> bool {
        true
    }

    open spec fn sub_spec(self, rhs: Duration) -> Timestamp {
        Timestamp { nanos: minus_duration(self, rhs) as u64 }
    }
}

impl std::ops::Sub<Timestamp> for Timestamp {
    type Output = Duration;

    fn sub(self, rhs: Timestamp) -> (r: Duration)
        ensures
            duration_nanos(r) == between(self, rhs),
    {
        self.duration_since(rhs)
    }
}

impl vstd::std_specs::ops::SubSpecImpl<Timestamp> for Timestamp {
    open spec fn obeys_sub_spec() -> bool {
        false
    }

    open spec fn sub_req(self, rhs: Timestamp) -> bool {
        true
    }

    open spec fn sub_spec(self, rhs: Timestamp) -> Duration {
        arbitrary()
    }
}

/// The interval used after a tick that leaves the accumulated drift at
/// `drift`: shortened by a tenth of a positive drift, otherwise unchanged.
pub open spec fn corrected_interval(interval_ns: u64, drift: i64) -> int {
    if drift > 0 {
        sat_sub(interval_ns as int, drift / 10)
    } else {
        interval_ns as int
    }
}

/// A drift-corrected periodic timer.
///
/// On each tick the timer measures how late it fired against the configured
/// interval, accumulates that drift, and shortens the next interval by a
/// tenth of a positive drift to catch up.
#[derive(Debug, Clone)]
pub struct DriftCorrectedTimer {
    interval: Duration,
    next_fire: Timestamp,
    drift_ns: i64,
    max_drift_ns: u64,
    tick_count: u64,
    running: bool,
}

impl DriftCorrectedTimer {
    /// The configured interval.
    pub closed spec fn spec_interval(&self) -> Duration {
        self.interval
    }

    /// The configured interval in nanoseconds, as the timer computes with it.
    pub open spec fn spec_interval_ns(&self) -> u64 {
        nanos_u64(self.spec_interval())
    }

    /// The next expected fire time.
    pub closed spec fn spec_next_fire(&self) -> Timestamp {
        self.next_fire
    }

    /// The accumulated drift in nanoseconds; positive means late.
    pub closed spec fn spec_drift(&self) -> i64 {
        self.drift_ns
    }

    /// The maximum tolerated drift in nanoseconds.
    pub closed spec fn spec_max_drift(&self) -> u64 {
        self.max_drift_ns
    }

    /// The number of ticks since the last start.
    pub closed spec fn spec_tick_count(&self) -> u64 {
        self.tick_count
    }

    /// Whether the timer is running.
    pub closed spec fn spec_running(&self) -> bool {
        self.running
    }

    /// How late a tick at `now` is measured against the interval before the
    /// next fire time, in nanoseconds.
    pub open spec fn lateness(&self, now: Timestamp) -> int {
        (((now.nanos - (self.spec_next_fire().nanos - self.spec_interval_ns())) as u64) as i64) - (duration_nanos(
            self.spec_interval(),
        ) as i64)
    }

    /// A tick at `now` fires and its arithmetic stays within range.
    pub open spec fn tick_in_range(&self, now: Timestamp) -> bool {
        let drift2 = self.spec_drift() + self.lateness(now);
        &&& self.spec_next_fire().nanos >= self.spec_interval_ns()
        &&& i64::MIN <= self.lateness(now) <= i64::MAX
        &&& i64::MIN <= drift2 <= i64::MAX
        &&& drift2 != i64::MIN
        &&& now.nanos + corrected_interval(self.spec_interval_ns(), drift2 as i64) <= u64::MAX
        &&& self.spec_tick_count() < u64::MAX
    }

    /// Creates a new timer with the given interval and a drift tolerance of
    /// a tenth of it.
    pub fn new(interval: Duration) -> (r: Self)
        ensures
            r.spec_interval() == interval,
            r.spec_next_fire().nanos == 0,
            r.spec_drift() == 0,
            r.spec_max_drift() == nanos_u64(interval) / 10,
            r.spec_tick_count() == 0,
            !r.spec_running(),
    {
        let n = duration_as_nanos(interval);
        DriftCorrectedTimer {
            interval,
            next_fire: Timestamp { nanos: 0 },
            drift_ns: 0,
            max_drift_ns: (n as u64) / 10,
            tick_count: 0,
            running: false,
        }
    }

    /// Creates a new timer with a custom maximum drift tolerance.
    pub fn with_max_drift(interval: Duration, max_drift: Duration) -> (r: Self)
        ensures
            r.spec_interval() == interval,
            r.spec_next_fire().nanos == 0,
            r.spec_drift() == 0,
            r.spec_max_drift() == nanos_u64(max_drift),
            r.spec_tick_count() == 0,
            !r.spec_running(),
    {
        let m = duration_as_nanos(max_drift);
        DriftCorrectedTimer {
            interval,
            next_fire: Timestamp { nanos: 0 },
            drift_ns: 0,
            max_drift_ns: m as u64,
            tick_count: 0,
            running: false,
        }
    }

    /// Starts or restarts the timer at `now`: the first fire is one interval
    /// later.
    pub fn start(&mut self, now: Timestamp)
        ensures
            final(self).spec_interval() == old(self).spec_interval(),
            final(self).spec_next_fire().nanos == plus_duration(now, old(self).spec_interval()),
            final(self).spec_drift() == 0,
            final(self).spec_max_drift() == old(self).spec_max_drift(),
            final(self).spec_tick_count() == 0,
            final(self).spec_running(),
    {
        self.next_fire = now.add_duration(self.interval);
        self.drift_ns = 0;
        self.tick_count = 0;
        self.running = true;
    }

    /// Stops the timer.
    pub fn stop(&mut self)
        ensures
            final(self).spec_interval() == old(self).spec_interval(),
            final(self).spec_next_fire() == old(self).spec_next_fire(),
            final(self).spec_drift() == old(self).spec_drift(),
            final(self).spec_max_drift() == old(self).spec_max_drift(),
            final(self).spec_tick_count() == old(self).spec_tick_count(),
            !final(self).spec_running(),
    {
        self.running = false;
    }

    /// Checks at `now` whether the interval has elapsed.
    ///
    /// If it has, the drift is updated, the next fire time is set one
    /// corrected interval after `now`, and `true` is returned.
    pub fn tick(&mut self, now: Timestamp) -> (r: bool)
        requires
            old(self).spec_running() && now.nanos >= old(self).spec_next_fire().nanos ==> old(
                self,
            ).tick_in_range(now),
        ensures
            r == (old(self).spec_running() && now.nanos >= old(self).spec_next_fire().nanos),
            final(self).spec_interval() == old(self).spec_interval(),
            final(self).spec_max_drift() == old(self).spec_max_drift(),
            final(self).spec_running() == old(self).spec_running(),
            !r ==> *final(self) == *old(self),
            r ==> {
                let drift2 = old(self).spec_drift() + old(self).lateness(now);
                &&& final(self).spec_drift() == drift2
                &&& final(self).spec_next_fire().nanos == now.nanos + corrected_interval(
                    old(self).spec_interval_ns(),
                    drift2 as i64,
                )
                &&& final(self).spec_tick_count() == old(self).spec_tick_count() + 1
            },
    {
        if !self.running {
            return false;
        }
        if now.nanos >= self.next_fire.nanos {
            let interval_full = duration_as_nanos(self.interval);
            let interval_ns = interval_full as u64;
            let actual_elapsed_ns = (now.nanos - (self.next_fire.nanos - interval_ns)) as i64;
            let expected_ns = interval_full as i64;
            self.drift_ns = self.drift_ns + (actual_elapsed_ns - expected_ns);
            let next_interval_ns = if self.drift_ns > 0 {
                let d: i64 = if self.drift_ns < 0 {
                    -self.drift_ns
                } else {
                    self.drift_ns
                };
                interval_ns.saturating_sub((d as u64) / 10)
            } else {
                interval_ns
            };
            self.next_fire = Timestamp { nanos: now.nanos + next_interval_ns };
            self.tick_count = self.tick_count + 1;
            true
        } else {
            false
        }
    }

    /// Whether `tick(now)` keeps its arithmetic within range, so that it may
    /// be called: always when no tick is due at `now`.
    pub fn tick_fits(&self, now: Timestamp) -> (r: bool)
        ensures
            r == (self.spec_running() && now.nanos >= self.spec_next_fire().nanos ==> self.tick_in_range(
                now,
            )),
    {
        if !self.running || now.nanos < self.next_fire.nanos {
            return true;
        }
        let interval_full = duration_as_nanos(self.interval);
        let interval_ns = interval_full as u64;
        if self.next_fire.nanos < interval_ns {
            return false;
        }
        let elapsed = now.nanos - (self.next_fire.nanos - interval_ns);
        let late: i128 = (elapsed as i64) as i128 - (interval_full as i64) as i128;
        if late < i64::MIN as i128 || late > i64::MAX as i128 {
            return false;
        }
        let drift2: i128 = self.drift_ns as i128 + late;
        if drift2 <= i64::MIN as i128 || drift2 > i64::MAX as i128 {
            return false;
        }
        let next_interval: u128 = if drift2 > 0 {
            let cut = (drift2 / 10) as u128;
            if (interval_ns as u128) > cut {
                interval_ns as u128 - cut
            } else {
                0
            }
        } else {
            interval_ns as u128
        };
        now.nanos as u128 + next_interval <= u64::MAX as u128 && self.tick_count < u64::MAX
    }

    /// Returns the time left at `now` until the next fire, zero when stopped
    /// or already due.
    pub fn remaining(&self, now: Timestamp) -> (r: Duration)
        ensures
            duration_nanos(r) == if self.spec_running() {
                between(self.spec_next_fire(), now)
            } else {
                0
            },
    {
        if !self.running {
            return duration_from_nanos(0);
        }
        if now.nanos >= self.next_fire.nanos {
            duration_from_nanos(0)
        } else {
            self.next_fire.duration_since(now)
        }
    }

    /// Returns the size of the accumulated drift.
    pub fn drift(&self) -> (r: Duration)
        requires
            self.spec_drift() != i64::MIN,
        ensures
            duration_nanos(r) == if self.spec_drift() < 0 {
                -self.spec_drift()
            } else {
                self.spec_drift() as int
            },
    {
        let d: i64 = if self.drift_ns < 0 {
            -self.drift_ns
        } else {
            self.drift_ns
        };
        duration_from_nanos(d as u64)
    }

    /// Returns the number of ticks since start.
    pub fn tick_count(&self) -> (r: u64)
        ensures
            r == self.spec_tick_count(),
    {
        self.tick_count
    }

    /// Restarts the timer at `now` and clears the accumulated drift.
    pub fn reset(&mut self, now: Timestamp)
        ensures
            final(self).spec_interval() == old(self).spec_interval(),
            final(self).spec_next_fire().nanos == plus_duration(now, old(self).spec_interval()),
            final(self).spec_drift() == 0,
            final(self).spec_max_drift() == old(self).spec_max_drift(),
            final(self).spec_tick_count() == 0,
            final(self).spec_running(),
    {
        self.start(now);
    }

    /// Returns `true` if the timer is running.
    pub fn is_running(&self) -> (r: bool)
        ensures
            r == self.spec_running(),
    {
        self.running
    }

    /// Returns the configured interval.
    pub fn interval(&self) -> (r: Duration)
        ensures
            r == self.spec_interval(),
    {
        self.interval
    }

    /// Returns the next fire time.
    pub fn next_fire(&self) -> (r: Timestamp)
        ensures
            r == self.spec_next_fire(),
    {
        self.next_fire
    }

    /// Changes the interval; the drift tolerance becomes a tenth of it.
    pub fn adjust_interval(&mut self, new_interval: Duration)
        ensures
            final(self).spec_interval() == new_interval,
            final(self).spec_max_drift() == nanos_u64(new_interval) / 10,
            final(self).spec_next_fire() == old(self).spec_next_fire(),
            final(self).spec_drift() == old(self).spec_drift(),
            final(self).spec_tick_count() == old(self).spec_tick_count(),
            final(self).spec_running() == old(self).spec_running(),
    {
        let n = duration_as_nanos(new_interval);
        self.interval = new_interval;
        self.max_drift_ns = (n as u64) / 10;
    }
}

/// A heartbeat for kernel health monitoring.
///
/// The kernel calls `beat` every cycle; a monitor checks how long ago the
/// last beat was.
#[derive(Debug)]
pub struct HeartbeatTimer {
    last_beat: AtomicTimestamp,
    interval_ns: u64,
    beat_count: u64,
    active: bool,
}

impl HeartbeatTimer {
    /// The time of the last beat, in nanoseconds.
    pub closed spec fn spec_last_beat(&self) -> u64 {
        self.last_beat@
    }

    /// The expected interval between beats, in nanoseconds.
    pub closed spec fn spec_interval_ns(&self) -> u64 {
        self.interval_ns
    }

    /// The number of beats since creation (or since the last reset).
    pub closed spec fn spec_beat_count(&self) -> u64 {
        self.beat_count
    }

    /// Whether the heartbeat is active.
    pub closed spec fn spec_active(&self) -> bool {
        self.active
    }

    /// Creates a heartbeat with the given expected interval whose first beat
    /// is at `now_ns`.
    pub fn new(interval: Duration, now_ns: u64) -> (r: Self)
        ensures
            r.spec_last_beat() == now_ns,
            r.spec_interval_ns() == nanos_u64(interval),
            r.spec_beat_count() == 0,
            r.spec_active(),
    {
        let n = duration_as_nanos(interval);
        HeartbeatTimer { last_beat: AtomicTimestamp::new(now_ns), interval_ns: n as u64, beat_count: 0, active: true }
    }

    /// Records a heartbeat at `now_ns`; the last beat never moves backwards.
    pub fn beat(&mut self, now_ns: u64)
        ensures
            final(self).spec_last_beat() == crate::atomic::max_u64(old(self).spec_last_beat(), now_ns),
            final(self).spec_beat_count() == crate::atomic::wrap_add_u64(old(self).spec_beat_count(), 1),
            final(self).spec_interval_ns() == old(self).spec_interval_ns(),
            final(self).spec_active() == old(self).spec_active(),
    {
        let _ = self.last_beat.advance(now_ns);
        self.beat_count = self.beat_count.wrapping_add(1);
    }

    /// Returns the time from the last beat until `now_ns`, zero if `now_ns`
    /// is earlier.
    pub fn time_since_beat(&self, now_ns: u64) -> (r: Duration)
        ensures
            duration_nanos(r) == sat_sub(now_ns as int, self.spec_last_beat() as int),
    {
        duration_from_nanos(now_ns.saturating_sub(self.last_beat.as_nanos()))
    }

    /// Returns the whole milliseconds from the last beat until `now_ns`.
    pub fn millis_since_beat(&self, now_ns: u64) -> (r: u64)
        ensures
            r == sat_sub(now_ns as int, self.spec_last_beat() as int) / (NANOS_PER_MILLI as int),
    {
        now_ns.saturating_sub(self.last_beat.as_nanos()) / NANOS_PER_MILLI
    }

    /// Checks whether more than `threshold` has passed since the last beat.
    pub fn is_stalled(&self, threshold: Duration, now_ns: u64) -> (r: bool)
        ensures
            r == (sat_sub(now_ns as int, self.spec_last_beat() as int) > duration_nanos(threshold)),
    {
        let since = now_ns.saturating_sub(self.last_beat.as_nanos());
        let t = duration_as_nanos(threshold);
        (since as u128) > t
    }

    /// Returns the number of beats since creation.
    pub fn beat_count(&self) -> (r: u64)
        ensures
            r == self.spec_beat_count(),
    {
        self.beat_count
    }

    /// Returns the expected interval.
    pub fn interval(&self) -> (r: Duration)
        ensures
            duration_nanos(r) == self.spec_interval_ns(),
    {
        duration_from_nanos(self.interval_ns)
    }

    /// Updates the expected interval.
    pub fn set_interval(&mut self, interval: Duration)
        ensures
            final(self).spec_interval_ns() == nanos_u64(interval),
            final(self).spec_last_beat() == old(self).spec_last_beat(),
            final(self).spec_beat_count() == old(self).spec_beat_count(),
            final(self).spec_active() == old(self).spec_active(),
    {
        let n = duration_as_nanos(interval);
        self.interval_ns = n as u64;
    }

    /// Deactivates the heartbeat.
    pub fn stop(&mut self)
        ensures
            !final(self).spec_active(),
            final(self).spec_interval_ns() == old(self).spec_interval_ns(),
            final(self).spec_last_beat() == old(self).spec_last_beat(),
            final(self).spec_beat_count() == old(self).spec_beat_count(),
    {
        self.active = false;
    }

    /// Records a beat at `now_ns` and reactivates the heartbeat.
    pub fn restart(&mut self, now_ns: u64)
        ensures
            final(self).spec_active(),
            final(self).spec_last_beat() == crate::atomic::max_u64(old(self).spec_last_beat(), now_ns),
            final(self).spec_beat_count() == crate::atomic::wrap_add_u64(old(self).spec_beat_count(), 1),
            final(self).spec_interval_ns() == old(self).spec_interval_ns(),
    {
        self.beat(now_ns);
        self.active = true;
    }

    /// Returns `true` if the heartbeat is active.
    pub fn is_active(&self) -> (r: bool)
        ensures
            r == self.spec_active(),
    {
        self.active
    }

    /// Returns the last beat timestamp.
    pub fn last_beat(&self) -> (r: Timestamp)
        ensures
            r.nanos == self.spec_last_beat(),
    {
        Timestamp { nanos: self.last_beat.as_nanos() }
    }

    /// Checks whether a full interval has passed since the last beat.
    pub fn is_beat_due(&self, now_ns: u64) -> (r: bool)
        ensures
            r == (sat_sub(now_ns as int, self.spec_last_beat() as int) >= self.spec_interval_ns()),
    {
        now_ns.saturating_sub(self.last_beat.as_nanos()) >= self.interval_ns
    }

    /// Moves the last beat to `now_ns` and sets the beat count back to
    /// zero, as at creation.
    pub fn reset(&mut self, now_ns: u64)
        ensures
            final(self).spec_last_beat() == crate::atomic::max_u64(old(self).spec_last_beat(), now_ns),
            final(self).spec_beat_count() == 0,
            final(self).spec_interval_ns() == old(self).spec_interval_ns(),
            final(self).spec_active() == old(self).spec_active(),
    {
        let _ = self.last_beat.advance(now_ns);
        self.beat_count = 0;
    }
}

/// A deadline for goal execution.
#[derive(Debug, Clone)]
pub struct Deadline {
    deadline: Timestamp,
    start: Timestamp,
    total_duration: Duration,
}

impl Deadline {
    /// The deadline timestamp.
    pub closed spec fn spec_deadline(&self) -> Timestamp {
        self.deadline
    }

    /// The start timestamp.
    pub closed spec fn spec_start(&self) -> Timestamp {
        self.start
    }

    /// The total length of the deadline, in nanoseconds.
    pub closed spec fn spec_total_ns(&self) -> nat {
        duration_nanos(self.total_duration)
    }

    /// Creates a deadline at `deadline`, started at `now`, with no recorded
    /// length.
    pub fn at(deadline: Timestamp, now: Timestamp) -> (r: Self)
        ensures
            r.spec_deadline() == deadline,
            r.spec_start() == now,
            r.spec_total_ns() == 0,
    {
        Deadline { deadline, start: now, total_duration: duration_from_nanos(0) }
    }

    /// Creates a deadline `duration` after `now`.
    pub fn from_now(duration: Duration, now: Timestamp) -> (r: Self)
        ensures
            r.spec_deadline().nanos == plus_duration(now, duration),
            r.spec_start() == now,
            r.spec_total_ns() == duration_nanos(duration),
    {
        Deadline { deadline: now.add_duration(duration), start: now, total_duration: duration }
    }

    /// Creates a deadline that never expires.
    pub fn never(now: Timestamp) -> (r: Self)
        ensures
            r.spec_deadline().nanos == u64::MAX,
            r.spec_start() == now,
            r.spec_total_ns() == u64::MAX * 1_000_000_000 + 999_999_999,
    {
        Deadline { deadline: Timestamp { nanos: u64::MAX }, start: now, total_duration: duration_max() }
    }

    /// Returns `true` if the deadline has passed at `now`.
    pub fn is_expired(&self, now: Timestamp) -> (r: bool)
        ensures
            r == (now.nanos >= self.spec_deadline().nanos),
    {
        now.nanos >= self.deadline.nanos
    }

    /// Returns the time left at `now`, zero once expired.
    pub fn remaining(&self, now: Timestamp) -> (r: Duration)
        ensures
            duration_nanos(r) == between(self.spec_deadline(), now),
    {
        if now.nanos >= self.deadline.nanos {
            duration_from_nanos(0)
        } else {
            self.deadline.duration_since(now)
        }
    }

    /// Returns the time left at `now` in whole milliseconds.
    pub fn remaining_millis(&self, now: Timestamp) -> (r: u64)
        ensures
            r == between(self.spec_deadline(), now) / (NANOS_PER_MILLI as int),
    {
        self.deadline.nanos.saturating_sub(now.nanos) / NANOS_PER_MILLI
    }

    /// Returns the time from the start until `now`.
    pub fn elapsed(&self, now: Timestamp) -> (r: Duration)
        ensures
            duration_nanos(r) == between(now, self.spec_start()),
    {
        now.duration_since(self.start)
    }

    /// Returns the total duration of this deadline.
    pub fn total_duration(&self) -> (r: Duration)
        ensures
            duration_nanos(r) == self.spec_total_ns(),
    {
        self.total_duration
    }

    /// Returns the start timestamp.
    pub fn start(&self) -> (r: Timestamp)
        ensures
            r == self.spec_start(),
    {
        self.start
    }

    /// Returns the deadline timestamp.
    pub fn deadline(&self) -> (r: Timestamp)
        ensures
            r == self.spec_deadline(),
    {
        self.deadline
    }

    /// Moves the deadline `duration` later; the total duration becomes the
    /// time from the start to the new deadline.
    pub fn extend(&mut self, duration: Duration)
        ensures
            final(self).spec_deadline().nanos == plus_duration(old(self).spec_deadline(), duration),
            final(self).spec_start() == old(self).spec_start(),
            final(self).spec_total_ns() == between(final(self).spec_deadline(), old(self).spec_start()),
    {
        self.deadline = self.deadline.add_duration(duration);
        self.total_duration = self.deadline.duration_since(self.start);
    }

    /// A human-readable description of the time left at `now`.
    pub fn format(&self, now: Timestamp) -> (r: String)
        ensures
            r@ == deadline_text(between(self.spec_deadline(), now) as nat, now.nanos >= self.spec_deadline().nanos),
    {
        proof {
            reveal_strlit("expired");
        }
        if now.nanos >= self.deadline.nanos {
            return String::from_str("expired");
        }
        let rem = self.deadline.nanos - now.nanos;
        if rem / NANOS_PER_SEC > 0 {
            let mut s = decimal_string(rem / NANOS_PER_SEC);
            s.append(".");
            let m = three_digit_string((rem % NANOS_PER_SEC) / NANOS_PER_MILLI);
            s.append(m.as_str());
            s.append("s remaining");
            s
        } else {
            let mut s = decimal_string(rem / NANOS_PER_MILLI);
            s.append("ms remaining");
            s
        }
    }
}

/// The description of a deadline with `rem` nanoseconds left.
pub open spec fn deadline_text(rem: nat, expired: bool) -> Seq<char> {
    if expired {
        "expired"@
    } else if rem / (NANOS_PER_SEC as nat) > 0 {
        decimal(rem / (NANOS_PER_SEC as nat)) + "."@ + zero_padded((rem % (NANOS_PER_SEC as nat)) / (NANOS_PER_MILLI as nat), 3)
            + "s remaining"@
    } else {
        decimal(rem / (NANOS_PER_MILLI as nat)) + "ms remaining"@
    }
}

} // verus!
