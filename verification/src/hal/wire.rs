//! Little-endian field access over byte buffers: the encoding shared by the
//! shared-memory ring layout and the vendor-daemon socket protocol.

use vstd::prelude::*;

verus! {

/// The unsigned 32-bit value stored little-endian at `s[off..off + 4]`.
pub open spec fn le_u32_at(s: Seq<u8>, off: int) -> int {
    s[off] as int + 256 * (s[off + 1] as int) + 65536 * (s[off + 2] as int) + 16777216 * (
    s[off + 3] as int)
}

/// The unsigned 64-bit value stored little-endian at `s[off..off + 8]`.
pub open spec fn le_u64_at(s: Seq<u8>, off: int) -> int {
    le_u32_at(s, off) + 4294967296 * le_u32_at(s, off + 4)
}

/// Two's-complement reading of a 32-bit pattern.
pub open spec fn as_signed32(u: int) -> int {
    if u >= 2147483648 { u - 4294967296 } else { u }
}

/// The signed 32-bit value stored little-endian at `s[off..off + 4]`.
pub open spec fn le_i32_at(s: Seq<u8>, off: int) -> int {
    as_signed32(le_u32_at(s, off))
}

/// The signed 64-bit value stored little-endian at `s[off..off + 8]`.
pub open spec fn le_i64_at(s: Seq<u8>, off: int) -> int {
    let u = le_u64_at(s, off);
    if u >= 0x8000_0000_0000_0000 { u - 0x1_0000_0000_0000_0000 } else { u }
}

/// The four little-endian bytes of `v`.
pub open spec fn le_bytes_u32(v: u32) -> Seq<u8> {
    seq![(v % 256) as u8, ((v / 256) % 256) as u8, ((v / 65536) % 256) as u8, (v / 16777216) as u8]
}

/// The four little-endian bytes of the two's-complement pattern of `v`.
pub open spec fn le_bytes_i32(v: i32) -> Seq<u8> {
    le_bytes_u32(v as u32)
}

/// The eight little-endian bytes of `v`.
pub open spec fn le_bytes_u64(v: u64) -> Seq<u8> {
    le_bytes_u32((v % 4294967296) as u32) + le_bytes_u32((v / 4294967296) as u32)
}

/// `s` with the 32-bit field at `off` replaced by the little-endian bytes of `v`.
pub open spec fn with_u32(s: Seq<u8>, off: int, v: u32) -> Seq<u8> {
    s.subrange(0, off) + le_bytes_u32(v) + s.subrange(off + 4, s.len() as int)
}

/// Replacing a field keeps the length, reads back `v` at `off`, and leaves every
/// byte outside `off..off + 4` alone.
pub proof fn lemma_with_u32(s: Seq<u8>, off: int, v: u32)
    requires
        0 <= off,
        off + 4 <= s.len(),
    ensures
        with_u32(s, off, v).len() == s.len(),
        le_u32_at(with_u32(s, off, v), off) == v,
        forall|j: int|
            0 <= j < s.len() && !(off <= j < off + 4) ==> #[trigger] with_u32(s, off, v)[j] == s[j],
{
    lemma_le_u32_roundtrip(v);
    let w = with_u32(s, off, v);
    assert(w[off] == le_bytes_u32(v)[0]);
    assert(w[off + 1] == le_bytes_u32(v)[1]);
    assert(w[off + 2] == le_bytes_u32(v)[2]);
    assert(w[off + 3] == le_bytes_u32(v)[3]);
}

/// A field elsewhere reads the same after replacing the field at `off`.
pub proof fn lemma_with_u32_other(s: Seq<u8>, off: int, v: u32, other: int)
    requires
        0 <= off,
        off + 4 <= s.len(),
        0 <= other,
        other + 4 <= s.len(),
        other + 4 <= off || off + 4 <= other,
    ensures
        le_u32_at(with_u32(s, off, v), other) == le_u32_at(s, other),
{
    lemma_with_u32(s, off, v);
    let w = with_u32(s, off, v);
    assert(w[other] == s[other]);
    assert(w[other + 1] == s[other + 1]);
    assert(w[other + 2] == s[other + 2]);
    assert(w[other + 3] == s[other + 3]);
}

/// A byte range outside the replaced field is unchanged.
pub proof fn lemma_with_u32_range(s: Seq<u8>, off: int, v: u32, a: int, b: int)
    requires
        0 <= off,
        off + 4 <= s.len(),
        0 <= a <= b <= s.len(),
        b <= off || off + 4 <= a,
    ensures
        with_u32(s, off, v).subrange(a, b) == s.subrange(a, b),
{
    lemma_with_u32(s, off, v);
    assert(with_u32(s, off, v).subrange(a, b) =~= s.subrange(a, b));
}

/// `s` with the bytes from `off` on replaced by `b`.
pub open spec fn with_bytes(s: Seq<u8>, off: int, b: Seq<u8>) -> Seq<u8> {
    s.subrange(0, off) + b + s.subrange(off + b.len(), s.len() as int)
}

/// Replacing a byte range keeps the length, reads back `b`, and leaves every
/// byte outside `off..off + b.len()` alone.
pub proof fn lemma_with_bytes(s: Seq<u8>, off: int, b: Seq<u8>)
    requires
        0 <= off,
        off + b.len() <= s.len(),
    ensures
        with_bytes(s, off, b).len() == s.len(),
        with_bytes(s, off, b).subrange(off, off + b.len()) == b,
        forall|j: int|
            0 <= j < s.len() && !(off <= j < off + b.len()) ==> #[trigger] with_bytes(s, off, b)[j]
                == s[j],
{
    assert(with_bytes(s, off, b).subrange(off, off + b.len()) =~= b);
}

/// Reading back the bytes of `v` gives `v`.
pub proof fn lemma_le_u32_roundtrip(v: u32)
    ensures
        le_u32_at(le_bytes_u32(v), 0) == v,
        le_bytes_u32(v).len() == 4,
{
    assert(v == v % 256 + 256 * ((v / 256) % 256) + 65536 * ((v / 65536) % 256) + 16777216 * (v
        / 16777216)) by (bit_vector);
    assert(v / 16777216 < 256) by (bit_vector);
}

/// Reading back the bytes of a signed `v` gives `v`.
pub proof fn lemma_le_i32_roundtrip(v: i32)
    ensures
        le_i32_at(le_bytes_i32(v), 0) == v,
        le_bytes_i32(v).len() == 4,
{
    lemma_le_u32_roundtrip(v as u32);
    assert(as_signed32(v as u32 as int) == v) by (bit_vector);
}

/// Reads the little-endian `u32` at `s[off..off + 4]`.
pub fn read_u32_le(s: &[u8], off: usize) -> (v: u32)
    requires
        off + 4 <= s@.len(),
    ensures
        v == le_u32_at(s@, off as int),
{
    (s[off] as u32) + 256 * (s[off + 1] as u32) + 65536 * (s[off + 2] as u32) + 16777216 * (
    s[off + 3] as u32)
}

/// Reads the little-endian `i32` at `s[off..off + 4]`.
pub fn read_i32_le(s: &[u8], off: usize) -> (v: i32)
    requires
        off + 4 <= s@.len(),
    ensures
        v == le_i32_at(s@, off as int),
{
    let u = read_u32_le(s, off);
    let r = u as i32;
    assert(r == as_signed32(u as int)) by (bit_vector)
        requires
            r == u as i32,
    ;
    r
}

/// Reads the little-endian `u64` at `s[off..off + 8]`.
pub fn read_u64_le(s: &[u8], off: usize) -> (v: u64)
    requires
        off + 8 <= s@.len(),
    ensures
        v == le_u64_at(s@, off as int),
{
    let _n = s.len();
    let lo = read_u32_le(s, off) as u64;
    let hi = read_u32_le(s, off + 4) as u64;
    lo + 4294967296 * hi
}

/// Reads the little-endian `i64` at `s[off..off + 8]`.
pub fn read_i64_le(s: &[u8], off: usize) -> (v: i64)
    requires
        off + 8 <= s@.len(),
    ensures
        v == le_i64_at(s@, off as int),
{
    let u = read_u64_le(s, off);
    let r = u as i64;
    assert(r == (if u >= 0x8000_0000_0000_0000 { u - 0x1_0000_0000_0000_0000 } else { u as int }))
        by (bit_vector)
        requires
            r == u as i64,
    ;
    r
}

/// Appends the little-endian bytes of `v`.
pub fn push_u32_le(buf: &mut Vec<u8>, v: u32)
    ensures
        final(buf)@ == old(buf)@ + le_bytes_u32(v),
{
    buf.push((v % 256) as u8);
    buf.push(((v / 256) % 256) as u8);
    buf.push(((v / 65536) % 256) as u8);
    assert(v / 16777216 < 256) by (bit_vector);
    buf.push((v / 16777216) as u8);
    assert(final(buf)@ =~= old(buf)@ + le_bytes_u32(v));
}

/// Appends the little-endian bytes of the two's-complement pattern of `v`.
pub fn push_i32_le(buf: &mut Vec<u8>, v: i32)
    ensures
        final(buf)@ == old(buf)@ + le_bytes_i32(v),
{
    push_u32_le(buf, v as u32);
}

/// Appends the little-endian bytes of `v`.
pub fn push_u64_le(buf: &mut Vec<u8>, v: u64)
    ensures
        final(buf)@ == old(buf)@ + le_bytes_u64(v),
{
    push_u32_le(buf, (v % 4294967296) as u32);
    push_u32_le(buf, (v / 4294967296) as u32);
    assert(final(buf)@ =~= old(buf)@ + le_bytes_u64(v));
}

/// Overwrites `buf[off..off + 4]` with the little-endian bytes of `v`.
pub fn write_u32_le(buf: &mut Vec<u8>, off: usize, v: u32)
    requires
        off + 4 <= old(buf)@.len(),
        off <= usize::MAX - 4,
    ensures
        final(buf)@.len() == old(buf)@.len(),
        le_u32_at(final(buf)@, off as int) == v,
        final(buf)@ == with_u32(old(buf)@, off as int, v),
    no_unwind
{
    proof { lemma_le_u32_roundtrip(v); }
    buf[off] = (v % 256) as u8;
    buf[off + 1] = ((v / 256) % 256) as u8;
    buf[off + 2] = ((v / 65536) % 256) as u8;
    assert(v / 16777216 < 256) by (bit_vector);
    buf[off + 3] = (v / 16777216) as u8;
    proof { lemma_with_u32(old(buf)@, off as int, v); }
    assert(buf@ =~= with_u32(old(buf)@, off as int, v));
}

/// Appends the bytes of `b`.
pub fn push_slice(v: &mut Vec<u8>, b: &[u8])
    ensures
        final(v)@ == old(v)@ + b@,
{
    let mut i: usize = 0;
    while i < b.len()
        invariant
            i <= b@.len(),
            v@ == old(v)@ + b@.subrange(0, i as int),
        decreases b@.len() - i,
    {
        v.push(b[i]);
        assert(b@.subrange(0, i + 1) =~= b@.subrange(0, i as int).push(b@[i as int]));
        i = i + 1;
    }
    assert(b@.subrange(0, b@.len() as int) =~= b@);
}

/// Overwrites `buf[off..off + n]` with `bytes` (of length `n`).
pub fn write_bytes_at(buf: &mut Vec<u8>, off: usize, bytes: &[u8], n: usize)
    requires
        n == bytes@.len(),
        off + n <= old(buf)@.len(),
        off + n <= usize::MAX,
    ensures
        final(buf)@ == with_bytes(old(buf)@, off as int, bytes@),
    no_unwind
{
    let mut i: usize = 0;
    while i < n
        invariant
            n == bytes@.len(),
            i <= n,
            off + n <= old(buf)@.len(),
            off + n <= usize::MAX,
            buf@.len() == old(buf)@.len(),
            forall|k: int| 0 <= k < off ==> #[trigger] buf@[k] == old(buf)@[k],
            forall|k: int| off + i <= k < buf@.len() ==> #[trigger] buf@[k] == old(buf)@[k],
            forall|k: int| off <= k < off + i ==> #[trigger] buf@[k] == bytes@[k - off],
        decreases n - i,
    {
        buf[off + i] = bytes[i];
        i = i + 1;
    }
    proof {
        lemma_with_bytes(old(buf)@, off as int, bytes@);
        let w = with_bytes(old(buf)@, off as int, bytes@);
        assert forall|k: int| off <= k < off + n implies w[k] == bytes@[k - off] by {
            assert(w.subrange(off as int, off + n)[k - off] == w[k]);
        }
        assert(buf@ =~= w);
    }
}

/// Copies `v` into the array `a` of the same length.
pub fn fill_from_vec<const N: usize>(a: &mut [u8; N], v: &Vec<u8>)
    requires
        v@.len() == N,
    ensures
        final(a)@ == v@,
{
    let mut i: usize = 0;
    while i < N
        invariant
            i <= N,
            v@.len() == N,
            a@.len() == N,
            forall|k: int| 0 <= k < i ==> a@[k] == v@[k],
        decreases N - i,
    {
        a[i] = v[i];
        i = i + 1;
    }
    assert(a@ =~= v@);
}

} // verus!
