//! The world model's scalar block, as it lies in the immutable region.
//!
//! The block is 64 bytes, fields in declaration order with no gaps and
//! little-endian integers: the timestamp at offset 0, the active process at
//! 8, the CPU percentage bits at 12, the memory in use at 16, the free disk
//! bits at 20, the reachability flag at 24, then padding to 64. Floating
//! values are kept as the bit patterns of their IEEE single-precision form.

use vstd::prelude::*;

verus! {

/// Bytes in the scalar block.
pub const WORLD_MODEL_SCALARS_SIZE: usize = 64;

/// Scalar fields of the world model, readable without a lock.
#[derive(Debug, Clone, Copy)]
pub struct WorldModelScalars {
    /// Nanoseconds since the epoch at the last update.
    pub timestamp_ns: u64,
    /// The process that has focus.
    pub active_pid: u32,
    /// CPU use in percent, as `f32` bits.
    pub cpu_pct_bits: u32,
    /// Memory in use, in megabytes.
    pub memory_used_mb: u32,
    /// Free disk, in gigabytes, as `f32` bits.
    pub disk_free_gb_bits: u32,
    /// 1 when the network is reachable.
    pub network_reachable: u8,
    /// Padding up to 64 bytes.
    pub _pad: [u8; 39],
}

/// The `n` low bytes of `v`, least significant first.
pub open spec fn le_bytes(v: u64, n: nat) -> Seq<u8> {
    Seq::new(n, |i: int| ((v >> (8 * i) as u64) & 0xff) as u8)
}

/// The unsigned value of four bytes, least significant first.
pub open spec fn le_u32(b: Seq<u8>) -> u32 {
    (b[0] as u32) | ((b[1] as u32) << 8u32) | ((b[2] as u32) << 16u32) | ((b[3] as u32) << 24u32)
}

/// The unsigned value of eight bytes, least significant first.
pub open spec fn le_u64(b: Seq<u8>) -> u64 {
    (b[0] as u64) | ((b[1] as u64) << 8u64) | ((b[2] as u64) << 16u64) | ((b[3] as u64) << 24u64)
        | ((b[4] as u64) << 32u64) | ((b[5] as u64) << 40u64) | ((b[6] as u64) << 48u64) | ((
    b[7] as u64) << 56u64)
}

/// The 64 bytes of a scalar block.
pub open spec fn scalars_bytes(s: WorldModelScalars) -> Seq<u8> {
    le_bytes(s.timestamp_ns, 8) + le_bytes(s.active_pid as u64, 4) + le_bytes(s.cpu_pct_bits as u64, 4)
        + le_bytes(s.memory_used_mb as u64, 4) + le_bytes(s.disk_free_gb_bits as u64, 4) + seq![
        s.network_reachable,
    ] + s._pad@
}

/// The padding bytes of a 64-byte block.
pub open spec fn pad_of(b: Seq<u8>) -> Seq<u8> {
    b.subrange(25, 64)
}

/// Whether the 64 bytes `b` hold the scalar block `s`.
pub open spec fn holds_scalars(b: Seq<u8>, s: WorldModelScalars) -> bool {
    &&& b.len() == WORLD_MODEL_SCALARS_SIZE
    &&& s.timestamp_ns == le_u64(b.subrange(0, 8))
    &&& s.active_pid == le_u32(b.subrange(8, 12))
    &&& s.cpu_pct_bits == le_u32(b.subrange(12, 16))
    &&& s.memory_used_mb == le_u32(b.subrange(16, 20))
    &&& s.disk_free_gb_bits == le_u32(b.subrange(20, 24))
    &&& s.network_reachable == b[24]
    &&& s._pad@ == pad_of(b)
}

proof fn lemma_u64_bytes(v: u64)
    ensures
        le_u64(le_bytes(v, 8)) == v,
{
    let b = le_bytes(v, 8);
    assert(v >> 0u64 == v) by (bit_vector);
    assert(b[0] == (v & 0xff) as u8);
    assert(b[1] == ((v >> 8u64) & 0xff) as u8);
    assert(b[2] == ((v >> 16u64) & 0xff) as u8);
    assert(b[3] == ((v >> 24u64) & 0xff) as u8);
    assert(b[4] == ((v >> 32u64) & 0xff) as u8);
    assert(b[5] == ((v >> 40u64) & 0xff) as u8);
    assert(b[6] == ((v >> 48u64) & 0xff) as u8);
    assert(b[7] == ((v >> 56u64) & 0xff) as u8);
    assert(((((v & 0xff) as u8) as u64) | (((((v >> 8u64) & 0xff) as u8) as u64) << 8u64) | (((((v
        >> 16u64) & 0xff) as u8) as u64) << 16u64) | (((((v >> 24u64) & 0xff) as u8) as u64) << 24u64)
        | (((((v >> 32u64) & 0xff) as u8) as u64) << 32u64) | (((((v >> 40u64) & 0xff) as u8) as u64)
        << 40u64) | (((((v >> 48u64) & 0xff) as u8) as u64) << 48u64) | (((((v >> 56u64) & 0xff)
        as u8) as u64) << 56u64)) == v) by (bit_vector);
}

proof fn lemma_u32_bytes(v: u32)
    ensures
        le_u32(le_bytes(v as u64, 4)) == v,
{
    let w = v as u64;
    let b = le_bytes(w, 4);
    assert(w >> 0u64 == w) by (bit_vector);
    assert(b[0] == (w & 0xff) as u8);
    assert(b[1] == ((w >> 8u64) & 0xff) as u8);
    assert(b[2] == ((w >> 16u64) & 0xff) as u8);
    assert(b[3] == ((w >> 24u64) & 0xff) as u8);
    assert(((((w & 0xff) as u8) as u32) | (((((w >> 8u64) & 0xff) as u8) as u32) << 8u32) | (((((w
        >> 16u64) & 0xff) as u8) as u32) << 16u32) | (((((w >> 24u64) & 0xff) as u8) as u32)
        << 24u32)) == v) by (bit_vector)
        requires
            w == v as u64,
    ;
}

/// Reading back the bytes of a scalar block gives the block: every field
/// and every padding byte.
pub proof fn lemma_scalars_round_trip(s: WorldModelScalars)
    ensures
        holds_scalars(scalars_bytes(s), s),
{
    let b = scalars_bytes(s);
    lemma_u64_bytes(s.timestamp_ns);
    lemma_u32_bytes(s.active_pid);
    lemma_u32_bytes(s.cpu_pct_bits);
    lemma_u32_bytes(s.memory_used_mb);
    lemma_u32_bytes(s.disk_free_gb_bits);
    assert(b.subrange(0, 8) =~= le_bytes(s.timestamp_ns, 8));
    assert(b.subrange(8, 12) =~= le_bytes(s.active_pid as u64, 4));
    assert(b.subrange(12, 16) =~= le_bytes(s.cpu_pct_bits as u64, 4));
    assert(b.subrange(16, 20) =~= le_bytes(s.memory_used_mb as u64, 4));
    assert(b.subrange(20, 24) =~= le_bytes(s.disk_free_gb_bits as u64, 4));
    assert(pad_of(b) =~= s._pad@);
}

proof fn lemma_bytes_u64(b: Seq<u8>)
    requires
        b.len() == 8,
    ensures
        le_bytes(le_u64(b), 8) == b,
{
    let (b0, b1, b2, b3, b4, b5, b6, b7) = (b[0], b[1], b[2], b[3], b[4], b[5], b[6], b[7]);
    let v = le_u64(b);
    assert(v == (b0 as u64) | ((b1 as u64) << 8u64) | ((b2 as u64) << 16u64) | ((b3 as u64)
        << 24u64) | ((b4 as u64) << 32u64) | ((b5 as u64) << 40u64) | ((b6 as u64) << 48u64) | ((
    b7 as u64) << 56u64));
    assert({
        &&& ((v >> 0u64) & 0xff) as u8 == b0
        &&& ((v >> 8u64) & 0xff) as u8 == b1
        &&& ((v >> 16u64) & 0xff) as u8 == b2
        &&& ((v >> 24u64) & 0xff) as u8 == b3
        &&& ((v >> 32u64) & 0xff) as u8 == b4
        &&& ((v >> 40u64) & 0xff) as u8 == b5
        &&& ((v >> 48u64) & 0xff) as u8 == b6
        &&& ((v >> 56u64) & 0xff) as u8 == b7
    }) by (bit_vector)
        requires
            v == (b0 as u64) | ((b1 as u64) << 8u64) | ((b2 as u64) << 16u64) | ((b3 as u64)
                << 24u64) | ((b4 as u64) << 32u64) | ((b5 as u64) << 40u64) | ((b6 as u64)
                << 48u64) | ((b7 as u64) << 56u64),
    ;
    assert(le_bytes(v, 8) =~= b);
}

proof fn lemma_bytes_u32(b: Seq<u8>)
    requires
        b.len() == 4,
    ensures
        le_bytes(le_u32(b) as u64, 4) == b,
{
    let (b0, b1, b2, b3) = (b[0], b[1], b[2], b[3]);
    let v = le_u32(b);
    let w = v as u64;
    assert(v == (b0 as u32) | ((b1 as u32) << 8u32) | ((b2 as u32) << 16u32) | ((b3 as u32)
        << 24u32));
    assert({
        &&& ((w >> 0u64) & 0xff) as u8 == b0
        &&& ((w >> 8u64) & 0xff) as u8 == b1
        &&& ((w >> 16u64) & 0xff) as u8 == b2
        &&& ((w >> 24u64) & 0xff) as u8 == b3
    }) by (bit_vector)
        requires
            w == v as u64,
            v == (b0 as u32) | ((b1 as u32) << 8u32) | ((b2 as u32) << 16u32) | ((b3 as u32)
                << 24u32),
    ;
    assert(le_bytes(w, 4) =~= b);
}

/// A scalar block that 64 bytes hold writes back to exactly those bytes.
pub proof fn lemma_bytes_round_trip(b: Seq<u8>, s: WorldModelScalars)
    requires
        holds_scalars(b, s),
    ensures
        scalars_bytes(s) == b,
{
    lemma_bytes_u64(b.subrange(0, 8));
    lemma_bytes_u32(b.subrange(8, 12));
    lemma_bytes_u32(b.subrange(12, 16));
    lemma_bytes_u32(b.subrange(16, 20));
    lemma_bytes_u32(b.subrange(20, 24));
    assert(scalars_bytes(s) =~= b);
}

fn push_le(out: &mut Vec<u8>, v: u64, n: usize)
    requires
        n <= 8,
    ensures
        final(out)@ == old(out)@ + le_bytes(v, n as nat),
{
    let mut i: usize = 0;
    while i < n
        invariant
            i <= n <= 8,
            out@ == old(out)@ + le_bytes(v, i as nat),
        decreases n - i,
    {
        let byte = ((v >> (8 * i) as u64) & 0xff) as u8;
        out.push(byte);
        assert(out@ =~= old(out)@ + le_bytes(v, (i + 1) as nat));
        i = i + 1;
    }
}

fn read_le_u32(b: &[u8], at: usize) -> (r: u32)
    requires
        at + 4 <= b@.len(),
    ensures
        r == le_u32(b@.subrange(at as int, at + 4)),
{
    (b[at] as u32) | ((b[at + 1] as u32) << 8u32) | ((b[at + 2] as u32) << 16u32) | ((b[at
        + 3] as u32) << 24u32)
}

fn read_le_u64(b: &[u8], at: usize) -> (r: u64)
    requires
        at + 8 <= b@.len(),
    ensures
        r == le_u64(b@.subrange(at as int, at + 8)),
{
    (b[at] as u64) | ((b[at + 1] as u64) << 8u64) | ((b[at + 2] as u64) << 16u64) | ((b[at
        + 3] as u64) << 24u64) | ((b[at + 4] as u64) << 32u64) | ((b[at + 5] as u64) << 40u64) | ((
    b[at + 6] as u64) << 48u64) | ((b[at + 7] as u64) << 56u64)
}

impl WorldModelScalars {
    /// The 64 bytes of this block, as it lies in the region.
    pub fn to_bytes(&self) -> (r: Vec<u8>)
        ensures
            r@ == scalars_bytes(*self),
    {
        let mut out: Vec<u8> = Vec::new();
        push_le(&mut out, self.timestamp_ns, 8);
        push_le(&mut out, self.active_pid as u64, 4);
        push_le(&mut out, self.cpu_pct_bits as u64, 4);
        push_le(&mut out, self.memory_used_mb as u64, 4);
        push_le(&mut out, self.disk_free_gb_bits as u64, 4);
        out.push(self.network_reachable);
        let mut i: usize = 0;
        while i < 39
            invariant
                i <= 39,
                out@ == le_bytes(self.timestamp_ns, 8) + le_bytes(self.active_pid as u64, 4)
                    + le_bytes(self.cpu_pct_bits as u64, 4) + le_bytes(self.memory_used_mb as u64, 4)
                    + le_bytes(self.disk_free_gb_bits as u64, 4) + seq![self.network_reachable]
                    + self._pad@.subrange(0, i as int),
            decreases 39 - i,
        {
            out.push(self._pad[i]);
            assert(self._pad@.subrange(0, i + 1) =~= self._pad@.subrange(0, i as int).push(
                self._pad@[i as int],
            ));
            i = i + 1;
        }
        assert(self._pad@.subrange(0, 39) =~= self._pad@);
        out
    }

    /// The block that `bytes` hold; `None` unless there are exactly 64 of
    /// them.
    pub fn from_bytes(bytes: &[u8]) -> (r: Option<Self>)
        ensures
            r is Some <==> bytes@.len() == WORLD_MODEL_SCALARS_SIZE,
            r matches Some(s) ==> holds_scalars(bytes@, s),
    {
        if bytes.len() != WORLD_MODEL_SCALARS_SIZE {
            return None;
        }
        let mut pad = [0u8; 39];
        let mut i: usize = 0;
        while i < 39
            invariant
                i <= 39,
                bytes@.len() == 64,
                forall|k: int| 0 <= k < i ==> pad@[k] == bytes@[25 + k],
            decreases 39 - i,
        {
            pad[i] = bytes[25 + i];
            i = i + 1;
        }
        let s = WorldModelScalars {
            timestamp_ns: read_le_u64(bytes, 0),
            active_pid: read_le_u32(bytes, 8),
            cpu_pct_bits: read_le_u32(bytes, 12),
            memory_used_mb: read_le_u32(bytes, 16),
            disk_free_gb_bits: read_le_u32(bytes, 20),
            network_reachable: bytes[24],
            _pad: pad,
        };
        assert(s._pad@ =~= pad_of(bytes@));
        Some(s)
    }
}

impl Default for WorldModelScalars {
    fn default() -> (r: Self)
        ensures
            r.timestamp_ns == 0,
            r.active_pid == 0,
            r.cpu_pct_bits == 0,
            r.memory_used_mb == 0,
            r.disk_free_gb_bits == 0,
            r.network_reachable == 0,
            r._pad@ == Seq::new(39, |i: int| 0u8),
    {
        let r = WorldModelScalars {
            timestamp_ns: 0,
            active_pid: 0,
            cpu_pct_bits: 0,
            memory_used_mb: 0,
            disk_free_gb_bits: 0,
            network_reachable: 0,
            _pad: [0u8; 39],
        };
        assert(r._pad@ =~= Seq::new(39, |i: int| 0u8));
        r
    }
}

} // verus!
