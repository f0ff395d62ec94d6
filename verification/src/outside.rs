//! Declarations of the items of `std`, `dashmap`, `lru` and `xxhash-rust`
//! that the library calls and that Verus has no specification for, with the
//! contracts assumed of them.

use vstd::prelude::*;

verus! {

/// `std::backtrace::Backtrace`, carried through as an opaque value.
#[verifier::external_type_specification]
#[verifier::external_body]
pub struct ExBacktrace(std::backtrace::Backtrace);

/// Calls `Backtrace::capture`. Nothing is assumed of the backtrace it
/// returns, which depends on the call stack and the environment.
#[verifier::external_body]
pub(crate) fn capture_backtrace() -> std::backtrace::Backtrace {
    std::backtrace::Backtrace::capture()
}

/// Formats a backtrace with its `Display` impl. Nothing is assumed of the
/// text, which lists frames of the call stack it was captured on.
#[verifier::external_body]
pub(crate) fn backtrace_string(b: &std::sync::Arc<std::backtrace::Backtrace>) -> String {
    format!("{}", b)
}

/// The whole length of a `Duration`, in nanoseconds.
pub uninterp spec fn duration_nanos(d: std::time::Duration) -> nat;

/// Calls `Duration::as_nanos`. Assumed: the result is the whole length in
/// nanoseconds.
#[verifier::external_body]
pub fn duration_as_nanos(d: std::time::Duration) -> (r: u128)
    ensures
        r == duration_nanos(d),
{
    d.as_nanos()
}

/// Calls `Duration::from_nanos`. Assumed, as its documentation states: the
/// duration is `nanos` nanoseconds long.
#[verifier::external_body]
pub fn duration_from_nanos(nanos: u64) -> (r: std::time::Duration)
    ensures
        duration_nanos(r) == nanos,
{
    std::time::Duration::from_nanos(nanos)
}

/// Calls `Duration::from_millis`. Assumed, as its documentation states: the
/// duration is `millis` milliseconds long.
#[verifier::external_body]
pub fn duration_from_millis(millis: u64) -> (r: std::time::Duration)
    ensures
        duration_nanos(r) == millis * 1_000_000,
{
    std::time::Duration::from_millis(millis)
}

/// Calls `Duration::from_secs`. Assumed, as its documentation states: the
/// duration is `secs` seconds long.
#[verifier::external_body]
pub fn duration_from_secs(secs: u64) -> (r: std::time::Duration)
    ensures
        duration_nanos(r) == secs * 1_000_000_000,
{
    std::time::Duration::from_secs(secs)
}

/// Reads `Duration::MAX`. Assumed, as its documentation states: it is
/// `u64::MAX` seconds and 999,999,999 nanoseconds long.
#[verifier::external_body]
pub fn duration_max() -> (r: std::time::Duration)
    ensures
        duration_nanos(r) == u64::MAX * 1_000_000_000 + 999_999_999,
{
    std::time::Duration::MAX
}

/// `Duration` is `Copy`; its `clone` gives back an equal value.
pub assume_specification[ <std::time::Duration as Clone>::clone ](d: &std::time::Duration) -> (r:
    std::time::Duration)
    ensures
        r == *d,
;

/// The text that `Debug` prints for a duration, such as `200ms`.
pub uninterp spec fn duration_debug_text(d: std::time::Duration) -> Seq<char>;

/// Formats a duration with `Debug`. Assumed: the result is that text.
#[verifier::external_body]
pub fn duration_debug_string(d: std::time::Duration) -> (r: String)
    ensures
        r@ == duration_debug_text(d),
{
    format!("{:?}", d)
}

/// `std::io::Error`, carried through as an opaque value.
#[verifier::external_type_specification]
#[verifier::external_body]
pub struct ExIoError(std::io::Error);

/// Formats an I/O error with `Display`. Nothing is assumed of the text: for
/// an operating-system error it comes from the system and may depend on its
/// locale.
#[verifier::external_body]
pub fn io_error_string(e: &std::io::Error) -> String {
    e.to_string()
}

/// `std::time::SystemTime`, carried through as an opaque value.
#[verifier::external_type_specification]
#[verifier::external_body]
pub struct ExSystemTime(std::time::SystemTime);

/// Calls `SystemTime::now`. Nothing is assumed of the result, which is the
/// machine's wall clock.
#[verifier::external_body]
pub fn system_time_now() -> std::time::SystemTime {
    std::time::SystemTime::now()
}

/// How far a clock reading lies after the Unix epoch, `None` when it lies
/// before.
pub uninterp spec fn unix_offset(t: std::time::SystemTime) -> Option<std::time::Duration>;

/// Calls `SystemTime::duration_since(UNIX_EPOCH)`, with the earlier-than-epoch
/// error turned into `None`. Assumed: the result is that offset of `t`.
#[verifier::external_body]
pub fn since_unix_epoch(t: std::time::SystemTime) -> (r: Option<std::time::Duration>)
    ensures
        r == unix_offset(t),
{
    match t.duration_since(std::time::UNIX_EPOCH) {
        Ok(d) => Some(d),
        Err(_) => None,
    }
}

/// The bit patterns of the 512 single-precision values of an embedding.
pub type EmbeddingBits = [u32; 512];

/// A concurrent map from text keys to embeddings.
pub type EmbeddingStore = dashmap::DashMap<u128, EmbeddingBits>;

/// An index of keys by recency of use.
pub type RecencyIndex = lru::LruCache<u128, ()>;

/// `dashmap::DashMap`, carried through as an opaque value.
#[verifier::external_type_specification]
#[verifier::external_body]
#[verifier::reject_recursive_types(K)]
#[verifier::reject_recursive_types(V)]
#[verifier::reject_recursive_types(S)]
pub struct ExDashMap<K, V, S = std::collections::hash_map::RandomState>(dashmap::DashMap<K, V, S>);

/// The entries of an embedding store: key to the bits of the embedding.
pub uninterp spec fn dashmap_entries(m: EmbeddingStore) -> Map<u128, EmbeddingBits>;

/// Calls `DashMap::new`. Assumed: the map is empty.
#[verifier::external_body]
pub(crate) fn dashmap_new() -> (r: EmbeddingStore)
    ensures
        dashmap_entries(r).dom() == Set::<u128>::empty(),
{
    dashmap::DashMap::new()
}

/// Calls `DashMap::get` and copies the value out of the guard. Assumed: the
/// value stored under `key`, if any.
#[verifier::external_body]
pub(crate) fn dashmap_get(m: &EmbeddingStore, key: u128) -> (r: Option<EmbeddingBits>)
    ensures
        r == if dashmap_entries(*m).contains_key(key) {
            Some(dashmap_entries(*m)[key])
        } else {
            None
        },
{
    m.get(&key).map(|entry| *entry)
}

/// Calls `DashMap::insert`. Assumed: `key` maps to `value` afterwards and
/// every other entry is unchanged.
#[verifier::external_body]
pub(crate) fn dashmap_insert(m: &mut EmbeddingStore, key: u128, value: EmbeddingBits)
    ensures
        dashmap_entries(*final(m)) == dashmap_entries(*old(m)).insert(key, value),
{
    m.insert(key, value);
}

/// Calls `DashMap::remove`. Assumed: `key` is absent afterwards and every
/// other entry is unchanged.
#[verifier::external_body]
pub(crate) fn dashmap_remove(m: &mut EmbeddingStore, key: u128)
    ensures
        dashmap_entries(*final(m)) == dashmap_entries(*old(m)).remove(key),
{
    m.remove(&key);
}

/// Calls `DashMap::len`. Assumed: the number of entries.
#[verifier::external_body]
pub(crate) fn dashmap_len(m: &EmbeddingStore) -> (r: usize)
    ensures
        r == dashmap_entries(*m).len(),
{
    m.len()
}

/// The hasher that `lru::LruCache` uses by default, carried through as an
/// opaque value.
#[verifier::external_type_specification]
#[verifier::external_body]
pub struct ExLruDefaultHasher(lru::DefaultHasher);

/// `lru::LruCache`, carried through as an opaque value.
#[verifier::external_type_specification]
#[verifier::external_body]
#[verifier::reject_recursive_types(K)]
#[verifier::reject_recursive_types(V)]
#[verifier::reject_recursive_types(S)]
pub struct ExLruCache<K, V, S = lru::DefaultHasher>(lru::LruCache<K, V, S>);

/// The keys of an eviction index, least recently used first.
pub uninterp spec fn lru_keys(c: RecencyIndex) -> Seq<u128>;

/// The capacity an eviction index was made with.
pub uninterp spec fn lru_capacity(c: RecencyIndex) -> nat;

/// The test for keys other than `k`.
pub open spec fn differs(k: u128) -> spec_fn(u128) -> bool {
    |x: u128| x != k
}

/// `s` without the occurrences of `k`.
pub open spec fn without(s: Seq<u128>, k: u128) -> Seq<u128> {
    s.filter(differs(k))
}

/// Calls `LruCache::new` with a capacity of `cap`, which must not be zero.
/// Assumed: the index is empty and has that capacity.
#[verifier::external_body]
pub(crate) fn lru_new(cap: usize) -> (r: RecencyIndex)
    requires
        cap > 0,
    ensures
        lru_keys(r) == Seq::<u128>::empty(),
        lru_capacity(r) == cap,
{
    lru::LruCache::new(std::num::NonZeroUsize::new(cap).unwrap())
}

/// Calls `LruCache::get`. Assumed, as the crate's source shows: a key present
/// becomes the most recently used and `true` is returned; otherwise nothing
/// changes and `false` is returned.
#[verifier::external_body]
pub(crate) fn lru_get(c: &mut RecencyIndex, key: u128) -> (r: bool)
    ensures
        r == lru_keys(*old(c)).contains(key),
        r ==> lru_keys(*final(c)) == without(lru_keys(*old(c)), key).push(key),
        !r ==> lru_keys(*final(c)) == lru_keys(*old(c)),
        lru_capacity(*final(c)) == lru_capacity(*old(c)),
{
    c.get(&key).is_some()
}

/// Calls `LruCache::put`. Assumed, as the crate's source shows: a key present
/// becomes the most recently used; a new key is added as the most recently
/// used, after the least recently used key is evicted if the index is full.
#[verifier::external_body]
pub(crate) fn lru_put(c: &mut RecencyIndex, key: u128)
    ensures
        lru_capacity(*final(c)) == lru_capacity(*old(c)),
        lru_keys(*old(c)).contains(key) ==> lru_keys(*final(c)) == without(lru_keys(*old(c)), key).push(
            key,
        ),
        !lru_keys(*old(c)).contains(key) && lru_keys(*old(c)).len() == lru_capacity(*old(c)) ==> lru_keys(
            *final(c),
        ) == lru_keys(*old(c)).drop_first().push(key),
        !lru_keys(*old(c)).contains(key) && lru_keys(*old(c)).len() != lru_capacity(*old(c)) ==> lru_keys(
            *final(c),
        ) == lru_keys(*old(c)).push(key),
{
    c.put(key, ());
}

/// Calls `LruCache::pop_lru` and keeps the key. Assumed: the least recently
/// used key is removed and returned; `None` when the index is empty.
#[verifier::external_body]
pub(crate) fn lru_pop_lru(c: &mut RecencyIndex) -> (r: Option<u128>)
    ensures
        lru_capacity(*final(c)) == lru_capacity(*old(c)),
        lru_keys(*old(c)).len() == 0 ==> r is None && lru_keys(*final(c)) == lru_keys(*old(c)),
        lru_keys(*old(c)).len() > 0 ==> r == Some(lru_keys(*old(c))[0]) && lru_keys(*final(c))
            == lru_keys(*old(c)).drop_first(),
{
    c.pop_lru().map(|(k, _)| k)
}

/// The 128-bit XXH3 hash of a byte string.
pub uninterp spec fn xxh3_128_of(bytes: Seq<u8>) -> u128;

/// Calls `xxhash_rust::xxh3::xxh3_128`. Assumed: the result is that hash,
/// a function of the bytes alone.
#[verifier::external_body]
pub(crate) fn xxh3_128_bytes(bytes: &[u8]) -> (r: u128)
    ensures
        r == xxh3_128_of(bytes@),
{
    xxhash_rust::xxh3::xxh3_128(bytes)
}

} // verus!
