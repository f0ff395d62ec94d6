use vstd::prelude::*;

pub mod atomic;
pub mod error;
pub mod memory;
pub mod outside;
pub mod ring_buffer;
pub mod rwlock;
pub mod text;
pub mod timing;

verus! {

/// `n` is a power of two: 1, 2, 4, 8, ...
pub open spec fn is_pow2(n: nat) -> bool
    decreases n,
{
    if n == 0 {
        false
    } else if n == 1 {
        true
    } else {
        n % 2 == 0 && is_pow2(n / 2)
    }
}

/// A Lamport timestamp, used by the event bus for causal ordering.
pub type LamportTimestamp = u64;

/// A goal ID.
pub type GoalId = u64;

/// An agent ID.
pub type AgentId = u64;

/// A namespace ID, used in typed buffers.
pub type NamespaceId = u64;

/// Default cache line size (64 bytes on modern CPUs).
pub const CACHE_LINE_SIZE: usize = 64;

/// Default number of shards for concurrent maps.
pub const DEFAULT_SHARD_COUNT: usize = 64;

/// Maximum number of entries in a ring buffer.
pub const MAX_RING_BUFFER_CAPACITY: usize = 16_777_216;

/// Maximum number of retries for CAS operations.
pub const MAX_CAS_RETRIES: usize = 128;

/// Default timeout for lock acquisition (in milliseconds).
pub const DEFAULT_LOCK_TIMEOUT_MS: u64 = 5000;

/// Maximum wait time for queue operations (in milliseconds).
pub const MAX_QUEUE_WAIT_MS: u64 = 30_000;

proof fn lemma_pow2_double(n: nat)
    requires
        is_pow2(n),
    ensures
        is_pow2(2 * n),
{
    assert((2 * n) / 2 == n);
}

/// The current system time in nanoseconds since the Unix epoch.
pub fn now_nanos() -> (r: u64)
    ensures
        exists|t: std::time::SystemTime| r == #[trigger] timing::system_time::epoch_nanos(t),
{
    timing::system_time::now_nanos()
}

/// The current system time in milliseconds since the Unix epoch.
pub fn now_millis() -> (r: u64)
    ensures
        exists|t: std::time::SystemTime| r == #[trigger] timing::system_time::epoch_nanos(t)
            / timing::NANOS_PER_MILLI,
{
    timing::system_time::now_millis()
}

/// The current system time in seconds since the Unix epoch.
pub fn now_secs() -> (r: u64)
    ensures
        exists|t: std::time::SystemTime| r == #[trigger] timing::system_time::epoch_nanos(t)
            / timing::NANOS_PER_SEC,
{
    timing::system_time::now_secs()
}

/// Checks if a value is a power of 2.
pub fn is_power_of_2(n: usize) -> (r: bool)
    ensures
        r == is_pow2(n as nat),
{
    if n == 0 {
        return false;
    }
    let mut x: usize = n;
    while x % 2 == 0
        invariant
            x > 0,
            is_pow2(n as nat) == is_pow2(x as nat),
        decreases x,
    {
        assert(is_pow2(x as nat) == is_pow2((x / 2) as nat));
        x = x / 2;
    }
    proof {
        if x != 1 {
            assert(!is_pow2(x as nat));
        }
    }
    x == 1
}

/// Calculates the next power of 2 greater than or equal to n.
///
/// This is used for sizing ring buffers and hash tables.
pub fn next_power_of_2(n: usize) -> (r: usize)
    requires
        n <= usize::MAX / 2 + 1,
    ensures
        is_pow2(r as nat),
        r >= n,
        r == 1 || r / 2 < n,
{
    let mut p: usize = 1;
    while p < n
        invariant
            is_pow2(p as nat),
            p >= 1,
            p == 1 || p / 2 < n,
            n <= usize::MAX / 2 + 1,
        decreases usize::MAX - p,
    {
        proof {
            lemma_pow2_double(p as nat);
        }
        p = p * 2;
    }
    p
}

/// Aligns a value up to the given alignment.
///
/// The alignment must be a power of 2.
pub fn align_up(value: usize, alignment: usize) -> (r: usize)
    requires
        is_pow2(alignment as nat),
        value + alignment - 1 <= usize::MAX,
    ensures
        r % alignment == 0,
        value <= r < value + alignment,
{
    let q = (value + (alignment - 1)) / alignment;
    proof {
        vstd::arithmetic::div_mod::lemma_fundamental_div_mod((value + (alignment - 1)) as int, alignment as int);
        vstd::arithmetic::mul::lemma_mul_is_commutative(q as int, alignment as int);
        vstd::arithmetic::div_mod::lemma_mod_multiples_basic(q as int, alignment as int);
    }
    q * alignment
}

/// Aligns a value down to the given alignment.
///
/// The alignment must be a power of 2.
pub fn align_down(value: usize, alignment: usize) -> (r: usize)
    requires
        is_pow2(alignment as nat),
    ensures
        r % alignment == 0,
        r <= value,
        value < r + alignment,
{
    let q = value / alignment;
    proof {
        vstd::arithmetic::div_mod::lemma_fundamental_div_mod(value as int, alignment as int);
        vstd::arithmetic::mul::lemma_mul_is_commutative(q as int, alignment as int);
        vstd::arithmetic::div_mod::lemma_mod_multiples_basic(q as int, alignment as int);
    }
    q * alignment
}

} // verus!
