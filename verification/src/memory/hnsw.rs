//! The nearest-neighbour index over capability embeddings: its errors, and
//! the index kept as a list of keyed vectors, each value held as the bit
//! pattern of an IEEE single-precision number. Adding checks the dimension
//! and the capacity; rebuilding cuts a flat array into vectors. Scoring a
//! query is floating-point work done by the caller over `entries`.

use vstd::prelude::*;
use crate::text::{decimal, decimal_string};

verus! {

/// Errors of index operations.
#[derive(Debug, Clone)]
pub enum HnswError {
    /// The index could not be created.
    InitFailed(String),
    /// Capacity could not be reserved.
    ReserveFailed(String),
    /// A vector's dimension differs from the index's.
    DimensionMismatch { expected: usize, got: usize },
    /// The index is at capacity.
    Full { capacity: usize },
    /// A vector could not be added.
    AddFailed(String),
    /// A search failed.
    SearchFailed(String),
    /// The index is not compiled in.
    FeatureDisabled,
}

/// The text of an index error.
pub open spec fn hnsw_error_text(e: HnswError) -> Seq<char> {
    match e {
        HnswError::InitFailed(m) => "HNSW init failed: "@ + m@,
        HnswError::ReserveFailed(m) => "HNSW reserve failed: "@ + m@,
        HnswError::DimensionMismatch { expected, got } => "HNSW dimension mismatch: expected "@
            + decimal(expected as nat) + ", got "@ + decimal(got as nat),
        HnswError::Full { capacity } => "HNSW index full: capacity "@ + decimal(capacity as nat),
        HnswError::AddFailed(m) => "HNSW add failed: "@ + m@,
        HnswError::SearchFailed(m) => "HNSW search failed: "@ + m@,
        HnswError::FeatureDisabled => "HNSW feature not enabled: compile with --features hnsw"@,
    }
}

fn prefixed(prefix: &str, rest: &str) -> (r: String)
    ensures
        r@ == prefix@ + rest@,
{
    let mut s = String::from_str(prefix);
    s.append(rest);
    s
}

impl HnswError {
    /// The text of this error.
    pub fn to_display_string(&self) -> (r: String)
        ensures
            r@ == hnsw_error_text(*self),
    {
        proof {
            reveal_strlit("HNSW init failed: ");
            reveal_strlit("HNSW reserve failed: ");
            reveal_strlit("HNSW dimension mismatch: expected ");
            reveal_strlit(", got ");
            reveal_strlit("HNSW index full: capacity ");
            reveal_strlit("HNSW add failed: ");
            reveal_strlit("HNSW search failed: ");
            reveal_strlit("HNSW feature not enabled: compile with --features hnsw");
        }
        match self {
            HnswError::InitFailed(m) => prefixed("HNSW init failed: ", m.as_str()),
            HnswError::ReserveFailed(m) => prefixed("HNSW reserve failed: ", m.as_str()),
            HnswError::DimensionMismatch { expected, got } => {
                let mut s = String::from_str("HNSW dimension mismatch: expected ");
                s.append(decimal_string(*expected as u64).as_str());
                s.append(", got ");
                s.append(decimal_string(*got as u64).as_str());
                s
            },
            HnswError::Full { capacity } => {
                let d = decimal_string(*capacity as u64);
                prefixed("HNSW index full: capacity ", d.as_str())
            },
            HnswError::AddFailed(m) => prefixed("HNSW add failed: ", m.as_str()),
            HnswError::SearchFailed(m) => prefixed("HNSW search failed: ", m.as_str()),
            HnswError::FeatureDisabled => String::from_str(
                "HNSW feature not enabled: compile with --features hnsw",
            ),
        }
    }
}

/// The nearest-neighbour index: `dim` values per vector, room for
/// `capacity` vectors.
#[derive(Debug)]
pub struct HnswIndexHandle {
    dim: usize,
    capacity: usize,
    entries: Vec<(u64, Vec<u32>)>,
}

impl HnswIndexHandle {
    /// Values per vector.
    pub closed spec fn spec_dim(&self) -> usize {
        self.dim
    }

    /// Vectors the index has room for.
    pub closed spec fn spec_capacity(&self) -> usize {
        self.capacity
    }

    /// The keyed vectors, in the order they were added.
    pub closed spec fn spec_entries(&self) -> Seq<(u64, Vec<u32>)> {
        self.entries@
    }

    /// An empty index.
    pub fn new(dim: usize, capacity: usize) -> (r: Result<Self, HnswError>)
        ensures
            r matches Ok(h) && h.spec_dim() == dim && h.spec_capacity() == capacity
                && h.spec_entries() == Seq::<(u64, Vec<u32>)>::empty(),
    {
        Ok(HnswIndexHandle { dim, capacity, entries: Vec::new() })
    }

    /// `Ok` when a vector of `len` values fits the index's dimension;
    /// otherwise the mismatch.
    pub fn check_dimension(&self, len: usize) -> (r: Result<(), HnswError>)
        ensures
            len == self.spec_dim() ==> r is Ok,
            len != self.spec_dim() ==> r == Err::<(), HnswError>(
                HnswError::DimensionMismatch { expected: self.spec_dim(), got: len },
            ),
    {
        if len != self.dim {
            Err(HnswError::DimensionMismatch { expected: self.dim, got: len })
        } else {
            Ok(())
        }
    }

    /// Adds `vector` under `key`. Refused when its length is not the
    /// dimension, then when the index is at capacity; nothing changes then.
    pub fn add(&mut self, key: u64, vector: &[u32]) -> (r: Result<(), HnswError>)
        ensures
            final(self).spec_dim() == old(self).spec_dim(),
            final(self).spec_capacity() == old(self).spec_capacity(),
            vector@.len() != old(self).spec_dim() ==> {
                &&& r == Err::<(), HnswError>(
                    HnswError::DimensionMismatch { expected: old(self).spec_dim(), got: vector.len() },
                )
                &&& final(self).spec_entries() == old(self).spec_entries()
            },
            vector@.len() == old(self).spec_dim() && old(self).spec_entries().len() >= old(self).spec_capacity()
                ==> {
                &&& r == Err::<(), HnswError>(HnswError::Full { capacity: old(self).spec_capacity() })
                &&& final(self).spec_entries() == old(self).spec_entries()
            },
            vector@.len() == old(self).spec_dim() && old(self).spec_entries().len() < old(self).spec_capacity()
                ==> {
                &&& r is Ok
                &&& final(self).spec_entries().len() == old(self).spec_entries().len() + 1
                &&& final(self).spec_entries().drop_last() == old(self).spec_entries()
                &&& final(self).spec_entries().last().0 == key
                &&& final(self).spec_entries().last().1@ == vector@
            },
    {
        self.try_push(key, vector)
    }

    /// Puts `vector` under `key`, as `add` does.
    fn try_push(&mut self, key: u64, vector: &[u32]) -> (r: Result<(), HnswError>)
        ensures
            final(self).spec_dim() == old(self).spec_dim(),
            final(self).spec_capacity() == old(self).spec_capacity(),
            vector@.len() != old(self).spec_dim() ==> {
                &&& r == Err::<(), HnswError>(
                    HnswError::DimensionMismatch { expected: old(self).spec_dim(), got: vector.len() },
                )
                &&& final(self).spec_entries() == old(self).spec_entries()
            },
            vector@.len() == old(self).spec_dim() && old(self).spec_entries().len() >= old(self).spec_capacity()
                ==> {
                &&& r == Err::<(), HnswError>(HnswError::Full { capacity: old(self).spec_capacity() })
                &&& final(self).spec_entries() == old(self).spec_entries()
            },
            vector@.len() == old(self).spec_dim() && old(self).spec_entries().len() < old(self).spec_capacity()
                ==> {
                &&& r is Ok
                &&& final(self).spec_entries().len() == old(self).spec_entries().len() + 1
                &&& final(self).spec_entries().drop_last() == old(self).spec_entries()
                &&& final(self).spec_entries().last().0 == key
                &&& final(self).spec_entries().last().1@ == vector@
            },
    {
        if vector.len() != self.dim {
            return Err(HnswError::DimensionMismatch { expected: self.dim, got: vector.len() });
        }
        if self.entries.len() >= self.capacity {
            return Err(HnswError::Full { capacity: self.capacity });
        }
        let ghost before = self.entries@;
        self.entries.push((key, vstd::slice::slice_to_vec(vector)));
        proof {
            assert(self.entries@.drop_last() =~= before);
        }
        Ok(())
    }

    /// An index of `capacity` holding the vectors of the flat array
    /// `vectors`, `dim` values each, keyed 0, 1, 2, ... in order. Refused
    /// when the array's length is not a multiple of `dim`, and when there
    /// are more vectors than `capacity`.
    pub fn rebuild(dim: usize, capacity: usize, vectors: &[u32]) -> (r: Result<Self, HnswError>)
        requires
            dim > 0,
        ensures
            vectors.len() % dim != 0 ==> r == Err::<Self, HnswError>(
                HnswError::DimensionMismatch { expected: dim, got: vectors.len() % dim },
            ),
            vectors.len() % dim == 0 && vectors.len() / dim > capacity ==> r
                == Err::<Self, HnswError>(HnswError::Full { capacity }),
            vectors.len() % dim == 0 && vectors.len() / dim <= capacity ==> (
            r matches Ok(h) && h.spec_dim() == dim && h.spec_capacity() == capacity
                && h.spec_entries().len() == vectors.len() / dim && forall|i: int|
                0 <= i < h.spec_entries().len() ==> (#[trigger] h.spec_entries()[i]).0 == i
                && h.spec_entries()[i].1@ == vectors@.subrange(i * dim, i * dim + dim)),
    {
        let len = vectors.len();
        if len % dim != 0 {
            return Err(HnswError::DimensionMismatch { expected: dim, got: len % dim });
        }
        let num = len / dim;
        proof {
            vstd::arithmetic::div_mod::lemma_fundamental_div_mod(len as int, dim as int);
            assert(num * dim == len) by (nonlinear_arith)
                requires
                    len == dim * (len / dim) + len % dim,
                    len % dim == 0,
                    num == len / dim,
            ;
        }
        let mut handle = HnswIndexHandle { dim, capacity, entries: Vec::new() };
        let mut i: usize = 0;
        let mut start: usize = 0;
        while i < num
            invariant
                dim > 0,
                num * dim == len,
                len == vectors@.len(),
                len % dim == 0,
                num == len / dim,
                i <= num,
                start == i * dim,
                handle.dim == dim,
                handle.capacity == capacity,
                handle.entries@.len() == i,
                i <= capacity,
                forall|k: int|
                    0 <= k < i ==> (#[trigger] handle.entries@[k]).0 == k && handle.entries@[k].1@
                        == vectors@.subrange(k * dim, k * dim + dim),
            decreases num - i,
        {
            if i >= capacity {
                proof {
                    assert(len / dim == num);
                }
                return Err(HnswError::Full { capacity });
            }
            proof {
                assert(start + dim <= len) by (nonlinear_arith)
                    requires
                        start == i * dim,
                        i < num,
                        num * dim == len,
                ;
            }
            let chunk = vstd::slice::slice_subrange(vectors, start, start + dim);
            let ghost before = handle.entries@;
            let added = handle.try_push(i as u64, chunk);
            proof {
                assert(added is Ok);
                assert(handle.entries@[i as int] == handle.entries@.last());
                assert forall|k: int| 0 <= k < i + 1 implies (#[trigger] handle.entries@[k]).0 == k
                    && handle.entries@[k].1@ == vectors@.subrange(k * dim, k * dim + dim) by {
                    if k < i {
                        assert(handle.entries@[k] == before[k]);
                    }
                }
                assert(start + dim == (i + 1) * dim) by (nonlinear_arith)
                    requires
                        start == i * dim,
                ;
            }
            i = i + 1;
            start = start + dim;
        }
        proof {
            assert(len / dim == num);
        }
        Ok(handle)
    }

    /// The number of vectors in the index.
    pub fn len(&self) -> (r: usize)
        ensures
            r == self.spec_entries().len(),
    {
        self.entries.len()
    }

    /// Whether the index holds no vector.
    pub fn is_empty(&self) -> (r: bool)
        ensures
            r == (self.spec_entries().len() == 0),
    {
        self.entries.len() == 0
    }

    /// Vectors the index has room for.
    pub fn capacity(&self) -> (r: usize)
        ensures
            r == self.spec_capacity(),
    {
        self.capacity
    }

    /// Values per vector.
    pub fn dim(&self) -> (r: usize)
        ensures
            r == self.spec_dim(),
    {
        self.dim
    }

    /// The keyed vectors, in the order they were added.
    pub fn entries(&self) -> (r: &[(u64, Vec<u32>)])
        ensures
            r@ == self.spec_entries(),
    {
        self.entries.as_slice()
    }
}

} // verus!
