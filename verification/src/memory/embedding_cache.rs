//! The embedding cache: embeddings keyed by the XXH3-128 hash of their
//! text, at most 1024 of them, the least recently used evicted first.
//!
//! The entries live in a concurrent map; a separate index orders their keys
//! by recency. Every key of the map is in the index and every key of the
//! index is in the map. An embedding is held as the bit patterns of its 512
//! single-precision values.

use vstd::prelude::*;
use vstd::string::StringSliceAdditionalSpecFns;
use crate::outside::{
    EmbeddingBits,
    EmbeddingStore,
    RecencyIndex,
    dashmap_entries,
    dashmap_get,
    dashmap_insert,
    dashmap_len,
    dashmap_new,
    dashmap_remove,
    differs,
    lru_capacity,
    lru_get,
    lru_keys,
    lru_new,
    lru_pop_lru,
    lru_put,
    without,
    xxh3_128_bytes,
    xxh3_128_of,
};

verus! {

/// Maximum number of entries in the cache.
pub const CACHE_MAX_ENTRIES: usize = 1024;

/// The key under which the embedding of `text` is kept.
pub open spec fn text_key(text: &str) -> u128 {
    xxh3_128_of(text.spec_bytes())
}

/// The entries after caching `vector` under `key`: when the cache is full,
/// the least recently used entry is evicted first.
pub open spec fn inserted_entries(
    entries: Map<u128, EmbeddingBits>,
    recency: Seq<u128>,
    key: u128,
    vector: EmbeddingBits,
) -> Map<u128, EmbeddingBits> {
    let kept = if entries.len() >= CACHE_MAX_ENTRIES {
        entries.remove(recency[0])
    } else {
        entries
    };
    kept.insert(key, vector)
}

/// The recency order after caching under `key`: the least recently used
/// key leaves when the cache is full, and `key` becomes the most recently
/// used.
pub open spec fn inserted_recency(entries: Map<u128, EmbeddingBits>, recency: Seq<u128>, key: u128) -> Seq<u128> {
    let order = if entries.len() >= CACHE_MAX_ENTRIES {
        recency.drop_first()
    } else {
        recency
    };
    if order.contains(key) {
        without(order, key).push(key)
    } else {
        order.push(key)
    }
}

/// The LRU embedding cache.
pub struct EmbeddingCache {
    store: EmbeddingStore,
    lru: RecencyIndex,
}

impl EmbeddingCache {
    /// The cached embeddings by key.
    pub closed spec fn entries(&self) -> Map<u128, EmbeddingBits> {
        dashmap_entries(self.store)
    }

    /// The cached keys, least recently used first.
    pub closed spec fn recency(&self) -> Seq<u128> {
        lru_keys(self.lru)
    }

    /// Well-formedness: the map and the recency index hold the same keys,
    /// each once, and no more than the capacity.
    pub closed spec fn wf(&self) -> bool {
        let keys = lru_keys(self.lru);
        let m = dashmap_entries(self.store);
        &&& lru_capacity(self.lru) == CACHE_MAX_ENTRIES
        &&& keys.no_duplicates()
        &&& keys.len() <= CACHE_MAX_ENTRIES
        &&& m.dom().finite()
        &&& m.len() == keys.len()
        &&& forall|k: u128| #[trigger] m.contains_key(k) <==> keys.contains(k)
    }

    /// An empty cache.
    pub fn new() -> (r: Self)
        ensures
            r.wf(),
            r.entries() == Map::<u128, EmbeddingBits>::empty(),
            r.recency() == Seq::<u128>::empty(),
    {
        let r = EmbeddingCache { store: dashmap_new(), lru: lru_new(CACHE_MAX_ENTRIES) };
        proof {
            assert(dashmap_entries(r.store).dom() =~= Set::<u128>::empty());
        }
        r
    }

    /// The embedding of `text`, if cached; a hit makes its key the most
    /// recently used.
    pub fn get(&mut self, text: &str) -> (r: Option<EmbeddingBits>)
        requires
            old(self).wf(),
        ensures
            final(self).wf(),
            final(self).entries() == old(self).entries(),
            r == if old(self).entries().contains_key(text_key(text)) {
                Some(old(self).entries()[text_key(text)])
            } else {
                None
            },
            r is Some ==> final(self).recency() == without(old(self).recency(), text_key(text)).push(
                text_key(text),
            ),
            r is None ==> final(self).recency() == old(self).recency(),
    {
        let key = Self::hash_text(text);
        self.get_by_key(key)
    }

    /// The embedding cached under `key`, if any; a hit makes `key` the most
    /// recently used.
    pub fn get_by_key(&mut self, key: u128) -> (r: Option<EmbeddingBits>)
        requires
            old(self).wf(),
        ensures
            final(self).wf(),
            final(self).entries() == old(self).entries(),
            r == if old(self).entries().contains_key(key) {
                Some(old(self).entries()[key])
            } else {
                None
            },
            r is Some ==> final(self).recency() == without(old(self).recency(), key).push(key),
            r is None ==> final(self).recency() == old(self).recency(),
    {
        let result = dashmap_get(&self.store, key);
        if result.is_some() {
            let ghost keys = lru_keys(self.lru);
            lru_get(&mut self.lru, key);
            proof {
                lemma_promote_keeps_keys(keys, key);
            }
        }
        result
    }

    /// Caches the embedding of `text`. When the cache is full, the least
    /// recently used entry is evicted first, even if it is the one for
    /// `text`. The key of `text` becomes the most recently used.
    pub fn insert(&mut self, text: &str, vector: EmbeddingBits)
        requires
            old(self).wf(),
        ensures
            final(self).wf(),
            final(self).entries() == inserted_entries(old(self).entries(), old(self).recency(), text_key(text), vector),
            final(self).recency() == inserted_recency(old(self).entries(), old(self).recency(), text_key(text)),
    {
        let key = Self::hash_text(text);
        self.insert_by_key(key, vector);
    }

    /// Caches `vector` under `key`. When the cache is full, the least
    /// recently used entry is evicted first, even if it is the one for
    /// `key`. `key` becomes the most recently used.
    pub fn insert_by_key(&mut self, key: u128, vector: EmbeddingBits)
        requires
            old(self).wf(),
        ensures
            final(self).wf(),
            final(self).entries() == inserted_entries(old(self).entries(), old(self).recency(), key, vector),
            final(self).recency() == inserted_recency(old(self).entries(), old(self).recency(), key),
    {
        let ghost keys0 = lru_keys(self.lru);
        let ghost m0 = dashmap_entries(self.store);
        if dashmap_len(&self.store) >= CACHE_MAX_ENTRIES {
            match lru_pop_lru(&mut self.lru) {
                Some(evict_key) => {
                    dashmap_remove(&mut self.store, evict_key);
                    proof {
                        lemma_drop_first_keys(keys0, m0);
                    }
                },
                None => {},
            }
        }
        let ghost keys1 = lru_keys(self.lru);
        let ghost m1 = dashmap_entries(self.store);
        proof {
            assert(keys1.len() < CACHE_MAX_ENTRIES);
        }
        lru_put(&mut self.lru, key);
        dashmap_insert(&mut self.store, key, vector);
        proof {
            if keys1.contains(key) {
                lemma_promote_keeps_keys(keys1, key);
                assert(dashmap_entries(self.store).dom() =~= m1.dom());
            } else {
                lemma_push_new_key(keys1, key);
                assert(dashmap_entries(self.store).dom() =~= m1.dom().insert(key));
            }
        }
    }

    /// The number of cached embeddings.
    pub fn len(&self) -> (r: usize)
        requires
            self.wf(),
        ensures
            r == self.entries().len(),
    {
        dashmap_len(&self.store)
    }

    /// Whether the cache is empty.
    pub fn is_empty(&self) -> (r: bool)
        requires
            self.wf(),
        ensures
            r == (self.entries().len() == 0),
    {
        dashmap_len(&self.store) == 0
    }

    /// The key of `text`: the XXH3-128 hash of its UTF-8 bytes.
    pub fn hash_text(text: &str) -> (r: u128)
        ensures
            r == text_key(text),
    {
        xxh3_128_bytes(text.as_bytes())
    }
}

impl Default for EmbeddingCache {
    fn default() -> (r: Self)
        ensures
            r.wf(),
            r.entries() == Map::<u128, EmbeddingBits>::empty(),
    {
        EmbeddingCache::new()
    }
}

/// Moving a present key to the end keeps the keys and their count.
proof fn lemma_promote_keeps_keys(keys: Seq<u128>, key: u128)
    requires
        keys.no_duplicates(),
        keys.contains(key),
    ensures
        without(keys, key).push(key).no_duplicates(),
        without(keys, key).push(key).len() == keys.len(),
        forall|k: u128| #[trigger] without(keys, key).push(key).contains(k) <==> keys.contains(k),
{
    let f = differs(key);
    let w = without(keys, key);
    assert forall|k: u128| #[trigger] w.push(key).contains(k) <==> keys.contains(k) by {
        if k == key {
            assert(w.push(key)[w.len() as int] == key);
        } else {
            if keys.contains(k) {
                let i = choose|i: int| 0 <= i < keys.len() && keys[i] == k;
                keys.lemma_filter_contains(f, i);
                let j = choose|j: int| 0 <= j < w.len() && w[j] == k;
                assert(w.push(key)[j] == k);
            }
            if w.push(key).contains(k) {
                let j = choose|j: int| 0 <= j < w.push(key).len() && w.push(key)[j] == k;
                assert(j < w.len());
                assert(w[j] == k);
                assert(w.contains(k));
                keys.lemma_filter_contains_rev(f, k);
            }
        }
    }
    lemma_filter_no_dups(keys, key);
    lemma_filter_len(keys, key);
}

proof fn lemma_filter_no_dups(keys: Seq<u128>, key: u128)
    requires
        keys.no_duplicates(),
    ensures
        without(keys, key).no_duplicates(),
        !without(keys, key).contains(key),
        without(keys, key).push(key).no_duplicates(),
    decreases keys.len(),
{
    let f = differs(key);
    let w = without(keys, key);
    reveal(Seq::filter);
    if keys.len() > 0 {
        let rest = keys.drop_last();
        assert(rest.no_duplicates());
        lemma_filter_no_dups(rest, key);
        if f(keys.last()) {
            assert(w == rest.filter(f).push(keys.last()));
            if rest.filter(f).contains(keys.last()) {
                rest.lemma_filter_contains_rev(f, keys.last());
                let i = choose|i: int| 0 <= i < rest.len() && rest[i] == keys.last();
                assert(keys[i] == keys[keys.len() - 1]);
            }
            assert forall|a: int, b: int| 0 <= a < b < w.len() implies w[a] != w[b] by {
                if b == w.len() - 1 {
                    assert(rest.filter(f).contains(w[a]));
                }
            }
        } else {
            assert(w == rest.filter(f));
        }
    } else {
        assert(w =~= Seq::<u128>::empty());
    }
    if w.contains(key) {
        let j = choose|j: int| 0 <= j < w.len() && w[j] == key;
        keys.lemma_filter_pred(f, j);
    }
    assert forall|a: int, b: int| 0 <= a < b < w.push(key).len() implies w.push(key)[a] != w.push(
        key,
    )[b] by {
        if b == w.len() {
            assert(w[a] == w.push(key)[a]);
            assert(w.contains(w[a]));
        }
    }
}

proof fn lemma_filter_len(keys: Seq<u128>, key: u128)
    requires
        keys.no_duplicates(),
        keys.contains(key),
    ensures
        without(keys, key).len() + 1 == keys.len(),
    decreases keys.len(),
{
    let f = differs(key);
    reveal(Seq::filter);
    let rest = keys.drop_last();
    if keys.last() == key {
        assert(!rest.contains(key)) by {
            if rest.contains(key) {
                let i = choose|i: int| 0 <= i < rest.len() && rest[i] == key;
                assert(keys[i] == keys[keys.len() - 1]);
            }
        }
        assert(without(keys, key) == rest.filter(f));
        lemma_filter_all(rest, key);
    } else {
        let i = choose|i: int| 0 <= i < keys.len() && keys[i] == key;
        assert(i < keys.len() - 1);
        assert(rest[i] == key);
        assert(rest.no_duplicates());
        lemma_filter_len(rest, key);
        assert(without(keys, key) == rest.filter(f).push(keys.last()));
    }
}

proof fn lemma_filter_all(keys: Seq<u128>, key: u128)
    requires
        !keys.contains(key),
    ensures
        without(keys, key) == keys,
    decreases keys.len(),
{
    let f = differs(key);
    reveal(Seq::filter);
    if keys.len() > 0 {
        let rest = keys.drop_last();
        assert(!rest.contains(key)) by {
            if rest.contains(key) {
                let i = choose|i: int| 0 <= i < rest.len() && rest[i] == key;
                assert(keys[i] == key);
            }
        }
        lemma_filter_all(rest, key);
        assert(keys.last() != key) by {
            assert(keys[keys.len() - 1] == keys.last());
        }
        assert(without(keys, key) == rest.push(keys.last()));
        assert(rest.push(keys.last()) =~= keys);
    } else {
        assert(without(keys, key) =~= keys);
    }
}

/// Dropping the first key, whose entry is removed, keeps the map and the
/// index in step.
proof fn lemma_drop_first_keys(keys: Seq<u128>, m: Map<u128, EmbeddingBits>)
    requires
        keys.no_duplicates(),
        keys.len() > 0,
        m.dom().finite(),
        m.len() == keys.len(),
        forall|k: u128| #[trigger] m.contains_key(k) <==> keys.contains(k),
    ensures
        keys.drop_first().no_duplicates(),
        m.remove(keys[0]).len() == keys.drop_first().len(),
        forall|k: u128| #[trigger] m.remove(keys[0]).contains_key(k) <==> keys.drop_first().contains(k),
{
    let d = keys.drop_first();
    assert(m.contains_key(keys[0])) by {
        assert(keys.contains(keys[0]));
    }
    assert forall|k: u128| #[trigger] m.remove(keys[0]).contains_key(k) <==> d.contains(k) by {
        if d.contains(k) {
            let i = choose|i: int| 0 <= i < d.len() && d[i] == k;
            assert(keys[i + 1] == k);
            assert(keys.contains(k));
        }
        if keys.contains(k) && k != keys[0] {
            let i = choose|i: int| 0 <= i < keys.len() && keys[i] == k;
            assert(d[i - 1] == k);
        }
        if d.contains(k) && k == keys[0] {
            let i = choose|i: int| 0 <= i < d.len() && d[i] == k;
            assert(keys[i + 1] == keys[0]);
        }
    }
}

/// Adding a key not yet present keeps the map and the index in step.
proof fn lemma_push_new_key(keys: Seq<u128>, key: u128)
    requires
        keys.no_duplicates(),
        !keys.contains(key),
    ensures
        keys.push(key).no_duplicates(),
        forall|k: u128| #[trigger] keys.push(key).contains(k) <==> (keys.contains(k) || k == key),
{
    assert forall|k: u128| #[trigger] keys.push(key).contains(k) <==> (keys.contains(k) || k == key) by {
        if keys.contains(k) {
            let i = choose|i: int| 0 <= i < keys.len() && keys[i] == k;
            assert(keys.push(key)[i] == k);
        }
        if k == key {
            assert(keys.push(key)[keys.len() as int] == k);
        }
        if keys.push(key).contains(k) && k != key {
            let i = choose|i: int| 0 <= i < keys.len() + 1 && keys.push(key)[i] == k;
            assert(keys[i] == k);
        }
    }
    assert forall|i: int, j: int| 0 <= i < j < keys.push(key).len() implies keys.push(key)[i]
        != keys.push(key)[j] by {
        if j == keys.len() {
            assert(keys.contains(keys[i]));
        }
    }
}

} // verus!
