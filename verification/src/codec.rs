//! Little-endian field access and byte-sequence building blocks shared by
//! every on-disk record of the persistent-data partition.
use vstd::prelude::*;

verus! {

broadcast use vstd::array::group_array_axioms;

/// The unsigned little-endian `u32` stored at `offset`.
pub open spec fn spec_le_u32(bytes: Seq<u8>, offset: int) -> u32 {
    (bytes[offset] as u32) | ((bytes[offset + 1] as u32) << 8u32) | ((bytes[offset + 2] as u32)
        << 16u32) | ((bytes[offset + 3] as u32) << 24u32)
}

/// The unsigned little-endian `u64` stored at `offset`.
pub open spec fn spec_le_u64(bytes: Seq<u8>, offset: int) -> u64 {
    (spec_le_u32(bytes, offset) as u64) | ((spec_le_u32(bytes, offset + 4) as u64) << 32u64)
}

/// The four little-endian bytes of `value`.
pub open spec fn u32_bytes(value: u32) -> Seq<u8> {
    seq![
        (value & 0xff) as u8,
        ((value >> 8u32) & 0xff) as u8,
        ((value >> 16u32) & 0xff) as u8,
        ((value >> 24u32) & 0xff) as u8,
    ]
}

/// The eight little-endian bytes of `value`.
pub open spec fn u64_bytes(value: u64) -> Seq<u8> {
    u32_bytes((value & 0xffff_ffff) as u32) + u32_bytes((value >> 32u64) as u32)
}

/// `count` zero bytes.
pub open spec fn zeros(count: nat) -> Seq<u8> {
    Seq::new(count, |i: int| 0u8)
}

/// Every byte of `bytes` is zero.
pub open spec fn all_zero(bytes: Seq<u8>) -> bool {
    forall|i: int| 0 <= i < bytes.len() ==> bytes[i] == 0
}

/// The 32-byte digest stored at `offset`.
pub open spec fn digest_at(s: Seq<u8>, o: int) -> [u8; 32] {
    [
        s[o], s[o + 1], s[o + 2], s[o + 3], s[o + 4], s[o + 5], s[o + 6], s[o + 7],
        s[o + 8], s[o + 9], s[o + 10], s[o + 11], s[o + 12], s[o + 13], s[o + 14], s[o + 15],
        s[o + 16], s[o + 17], s[o + 18], s[o + 19], s[o + 20], s[o + 21], s[o + 22], s[o + 23],
        s[o + 24], s[o + 25], s[o + 26], s[o + 27], s[o + 28], s[o + 29], s[o + 30], s[o + 31],
    ]
}

/// The 16-byte format epoch stored at `offset`.
pub open spec fn epoch_at(s: Seq<u8>, o: int) -> [u8; 16] {
    [
        s[o], s[o + 1], s[o + 2], s[o + 3], s[o + 4], s[o + 5], s[o + 6], s[o + 7],
        s[o + 8], s[o + 9], s[o + 10], s[o + 11], s[o + 12], s[o + 13], s[o + 14], s[o + 15],
    ]
}

/// The digest read at `o` holds the 32 bytes from `o` on.
pub proof fn lemma_digest_at(s: Seq<u8>, o: int)
    requires
        0 <= o,
        o + 32 <= s.len(),
    ensures
        digest_at(s, o)@ == s.subrange(o, o + 32),
{
    assert(digest_at(s, o)@ =~= s.subrange(o, o + 32));
}

/// The format epoch read at `o` holds the 16 bytes from `o` on.
pub proof fn lemma_epoch_at(s: Seq<u8>, o: int)
    requires
        0 <= o,
        o + 16 <= s.len(),
    ensures
        epoch_at(s, o)@ == s.subrange(o, o + 16),
{
    assert(epoch_at(s, o)@ =~= s.subrange(o, o + 16));
}

/// Reading a digest back from the bytes it was copied from gives the same digest.
pub proof fn lemma_digest_at_view(s: Seq<u8>, o: int, d: [u8; 32])
    requires
        0 <= o,
        o + 32 <= s.len(),
        s.subrange(o, o + 32) == d@,
    ensures
        digest_at(s, o) == d,
{
    lemma_digest_at(s, o);
    assert(digest_at(s, o) =~= d);
}

/// Reading an epoch back from the bytes it was copied from gives the same epoch.
pub proof fn lemma_epoch_at_view(s: Seq<u8>, o: int, d: [u8; 16])
    requires
        0 <= o,
        o + 16 <= s.len(),
        s.subrange(o, o + 16) == d@,
    ensures
        epoch_at(s, o) == d,
{
    lemma_epoch_at(s, o);
    assert(epoch_at(s, o) =~= d);
}

/// The little-endian bytes of a `u32` are four and read back to it.
pub proof fn lemma_u32_bytes(value: u32)
    ensures
        u32_bytes(value).len() == 4,
        spec_le_u32(u32_bytes(value), 0) == value,
{
    let b0 = (value & 0xff) as u8;
    let b1 = ((value >> 8u32) & 0xff) as u8;
    let b2 = ((value >> 16u32) & 0xff) as u8;
    let b3 = ((value >> 24u32) & 0xff) as u8;
    assert((b0 as u32) | ((b1 as u32) << 8u32) | ((b2 as u32) << 16u32) | ((b3 as u32) << 24u32)
        == value) by (bit_vector)
        requires
            b0 == (value & 0xff) as u8,
            b1 == ((value >> 8u32) & 0xff) as u8,
            b2 == ((value >> 16u32) & 0xff) as u8,
            b3 == ((value >> 24u32) & 0xff) as u8,
    ;
}

/// A `u32` written at `offset` reads back unchanged.
pub proof fn lemma_le_u32_at(bytes: Seq<u8>, offset: int, value: u32)
    requires
        0 <= offset,
        offset + 4 <= bytes.len(),
        bytes.subrange(offset, offset + 4) == u32_bytes(value),
    ensures
        spec_le_u32(bytes, offset) == value,
{
    lemma_u32_bytes(value);
    let w = u32_bytes(value);
    assert(bytes[offset] == w[0]);
    assert(bytes[offset + 1] == w[1]);
    assert(bytes[offset + 2] == w[2]);
    assert(bytes[offset + 3] == w[3]);
}

/// A `u64` written at `offset` reads back unchanged.
pub proof fn lemma_le_u64_at(bytes: Seq<u8>, offset: int, value: u64)
    requires
        0 <= offset,
        offset + 8 <= bytes.len(),
        bytes.subrange(offset, offset + 8) == u64_bytes(value),
    ensures
        spec_le_u64(bytes, offset) == value,
{
    let lo = #[verifier::truncate] ((value & 0xffff_ffff) as u32);
    let hi = #[verifier::truncate] ((value >> 32u64) as u32);
    lemma_u32_bytes(lo);
    lemma_u32_bytes(hi);
    let w = bytes.subrange(offset, offset + 8);
    assert(w =~= u32_bytes(lo) + u32_bytes(hi));
    assert forall|k: int| 0 <= k < 4 implies bytes[offset + 4 + k] == u32_bytes(hi)[k] by {
        assert(bytes[offset + 4 + k] == w[4 + k]);
    }
    assert forall|k: int| 0 <= k < 4 implies bytes[offset + k] == u32_bytes(lo)[k] by {
        assert(bytes[offset + k] == w[k]);
    }
    assert(bytes.subrange(offset, offset + 4) =~= u32_bytes(lo));
    assert(bytes.subrange(offset + 4, offset + 8) =~= u32_bytes(hi));
    lemma_le_u32_at(bytes, offset, lo);
    lemma_le_u32_at(bytes, offset + 4, hi);
    assert((lo as u64) | ((hi as u64) << 32u64) == value) by (bit_vector)
        requires
            lo == (value & 0xffff_ffff) as u32,
            hi == (value >> 32u64) as u32,
    ;
}

pub fn le_u32(bytes: &[u8], offset: usize) -> (value: u32)
    requires
        offset + 4 <= bytes@.len(),
    ensures
        value == spec_le_u32(bytes@, offset as int),
{
    (bytes[offset] as u32) | ((bytes[offset + 1] as u32) << 8u32) | ((bytes[offset + 2] as u32)
        << 16u32) | ((bytes[offset + 3] as u32) << 24u32)
}

pub fn le_u64(bytes: &[u8], offset: usize) -> (value: u64)
    requires
        offset + 8 <= bytes@.len(),
    ensures
        value == spec_le_u64(bytes@, offset as int),
{
    let _len = bytes.len();
    let lo = le_u32(bytes, offset);
    let hi = le_u32(bytes, offset + 4);
    (lo as u64) | ((hi as u64) << 32u64)
}

/// Appends the little-endian bytes of `value`.
pub fn push_u32(out: &mut Vec<u8>, value: u32)
    ensures
        final(out)@ == old(out)@ + u32_bytes(value),
{
    let ghost start = out@;
    out.push((value & 0xff) as u8);
    out.push(((value >> 8u32) & 0xff) as u8);
    out.push(((value >> 16u32) & 0xff) as u8);
    out.push(((value >> 24u32) & 0xff) as u8);
    assert(out@ =~= start + u32_bytes(value));
}

/// Appends the little-endian bytes of `value`.
pub fn push_u64(out: &mut Vec<u8>, value: u64)
    ensures
        final(out)@ == old(out)@ + u64_bytes(value),
{
    let ghost start = out@;
    push_u32(out, (value & 0xffff_ffff) as u32);
    push_u32(out, (value >> 32u64) as u32);
    assert(out@ =~= start + u64_bytes(value));
}

/// Appends a copy of `bytes`.
pub fn push_bytes(out: &mut Vec<u8>, bytes: &[u8])
    ensures
        final(out)@ == old(out)@ + bytes@,
{
    let ghost start = out@;
    let mut i: usize = 0;
    while i < bytes.len()
        invariant
            i <= bytes@.len(),
            out@ == start + bytes@.subrange(0, i as int),
        decreases bytes@.len() - i,
    {
        out.push(bytes[i]);
        i += 1;
        assert(out@ =~= start + bytes@.subrange(0, i as int));
    }
    assert(bytes@.subrange(0, i as int) =~= bytes@);
}

/// Appends `count` zero bytes.
pub fn push_zeros(out: &mut Vec<u8>, count: usize)
    ensures
        final(out)@ == old(out)@ + zeros(count as nat),
{
    let ghost start = out@;
    let mut i: usize = 0;
    while i < count
        invariant
            i <= count,
            out@ == start + zeros(i as nat),
        decreases count - i,
    {
        out.push(0u8);
        i += 1;
        assert(out@ =~= start + zeros(i as nat));
    }
}

/// Copies a buffer of exactly `N` bytes into a fixed-size array.
pub fn into_array<const N: usize>(bytes: &Vec<u8>) -> (array: [u8; N])
    requires
        bytes@.len() == N,
    ensures
        array@ == bytes@,
{
    let mut array = [0u8; N];
    let mut i: usize = 0;
    while i < N
        invariant
            i <= N,
            bytes@.len() == N,
            array@.len() == N,
            forall|j: int| 0 <= j < i ==> array@[j] == bytes@[j],
        decreases N - i,
    {
        array[i] = bytes[i];
        i += 1;
    }
    assert(array@ =~= bytes@);
    array
}

/// Copies `N` bytes starting at `offset` into a fixed-size array.
pub fn read_array<const N: usize>(bytes: &[u8], offset: usize) -> (array: [u8; N])
    requires
        offset + N <= bytes@.len(),
    ensures
        array@ == bytes@.subrange(offset as int, offset + N),
{
    let len = bytes.len();
    let mut array = [0u8; N];
    let mut i: usize = 0;
    while i < N
        invariant
            i <= N,
            len == bytes@.len(),
            offset + N <= bytes@.len(),
            array@.len() == N,
            forall|j: int| 0 <= j < i ==> array@[j] == bytes@[offset + j],
        decreases N - i,
    {
        array[i] = bytes[offset + i];
        i += 1;
    }
    assert(array@ =~= bytes@.subrange(offset as int, offset + N));
    array
}

pub fn read_digest(bytes: &[u8], offset: usize) -> (digest: [u8; 32])
    requires
        offset + 32 <= bytes@.len(),
    ensures
        digest == digest_at(bytes@, offset as int),
        digest@ == bytes@.subrange(offset as int, offset + 32),
{
    let digest: [u8; 32] = read_array(bytes, offset);
    proof {
        lemma_digest_at_view(bytes@, offset as int, digest);
    }
    digest
}

pub fn read_epoch(bytes: &[u8], offset: usize) -> (epoch: [u8; 16])
    requires
        offset + 16 <= bytes@.len(),
    ensures
        epoch == epoch_at(bytes@, offset as int),
        epoch@ == bytes@.subrange(offset as int, offset + 16),
{
    let epoch: [u8; 16] = read_array(bytes, offset);
    proof {
        lemma_epoch_at_view(bytes@, offset as int, epoch);
    }
    epoch
}

/// Whether every byte in `bytes[start..end]` is zero.
pub fn is_zero_range(bytes: &[u8], start: usize, end: usize) -> (zero: bool)
    requires
        start <= end <= bytes@.len(),
    ensures
        zero == all_zero(bytes@.subrange(start as int, end as int)),
{
    let mut i = start;
    while i < end
        invariant
            start <= i <= end <= bytes@.len(),
            all_zero(bytes@.subrange(start as int, i as int)),
        decreases end - i,
    {
        if bytes[i] != 0 {
            assert(bytes@.subrange(start as int, end as int)[i - start] != 0);
            return false;
        }
        i += 1;
        assert forall|k: int| 0 <= k < i - start implies #[trigger] bytes@.subrange(
            start as int,
            i as int,
        )[k] == 0 by {
            if k < i - 1 - start {
                assert(bytes@.subrange(start as int, (i - 1) as int)[k] == 0);
            }
        }
    }
    true
}

/// Whether every byte of `bytes` is zero.
pub fn is_zero(bytes: &[u8]) -> (zero: bool)
    ensures
        zero == all_zero(bytes@),
{
    let zero = is_zero_range(bytes, 0, bytes.len());
    assert(bytes@.subrange(0, bytes@.len() as int) =~= bytes@);
    zero
}

/// Byte-for-byte equality.
pub fn bytes_eq(a: &[u8], b: &[u8]) -> (equal: bool)
    ensures
        equal == (a@ == b@),
{
    if a.len() != b.len() {
        return false;
    }
    let mut i: usize = 0;
    while i < a.len()
        invariant
            a@.len() == b@.len(),
            i <= a@.len(),
            forall|j: int| 0 <= j < i ==> a@[j] == b@[j],
        decreases a@.len() - i,
    {
        if a[i] != b[i] {
            return false;
        }
        i += 1;
    }
    assert(a@ =~= b@);
    true
}

/// Equality of two 32-byte digests.
pub fn digest_eq(a: &[u8; 32], b: &[u8; 32]) -> (equal: bool)
    ensures
        equal == (*a == *b),
        equal == (a@ == b@),
{
    let equal = bytes_eq(a, b);
    proof {
        if a@ == b@ {
            assert(*a =~= *b);
        }
    }
    equal
}

/// Equality of two sectors.
pub fn sector_eq(a: &[u8; 512], b: &[u8; 512]) -> (equal: bool)
    ensures
        equal == (*a == *b),
{
    let equal = bytes_eq(a, b);
    proof {
        if a@ == b@ {
            assert(*a =~= *b);
        }
    }
    equal
}

/// Equality of two 16-byte format epochs.
pub fn epoch_eq(a: &[u8; 16], b: &[u8; 16]) -> (equal: bool)
    ensures
        equal == (*a == *b),
{
    let equal = bytes_eq(a, b);
    proof {
        if a@ == b@ {
            assert(*a =~= *b);
        }
    }
    equal
}

/// The little-endian bytes of zero are four zero bytes.
pub proof fn lemma_u32_bytes_zero()
    ensures
        u32_bytes(0) == zeros(4),
{
    assert((0u32 & 0xff) == 0 && ((0u32 >> 8u32) & 0xff) == 0 && ((0u32 >> 16u32) & 0xff) == 0
        && ((0u32 >> 24u32) & 0xff) == 0) by (bit_vector);
    assert(u32_bytes(0) =~= zeros(4));
}

/// Four bytes read as a little-endian `u32` determine each byte.
pub proof fn lemma_le_u32_distinct(a: Seq<u8>, b: Seq<u8>, offset: int, k: int)
    requires
        0 <= offset,
        offset + 4 <= a.len(),
        offset + 4 <= b.len(),
        offset <= k < offset + 4,
        a[k] != b[k],
    ensures
        spec_le_u32(a, offset) != spec_le_u32(b, offset),
{
    let (a0, a1, a2, a3) = (a[offset], a[offset + 1], a[offset + 2], a[offset + 3]);
    let (b0, b1, b2, b3) = (b[offset], b[offset + 1], b[offset + 2], b[offset + 3]);
    assert(((a0 as u32) | ((a1 as u32) << 8u32) | ((a2 as u32) << 16u32) | ((a3 as u32) << 24u32)) == ((
    b0 as u32) | ((b1 as u32) << 8u32) | ((b2 as u32) << 16u32) | ((b3 as u32) << 24u32)) ==> a0 == b0
        && a1 == b1 && a2 == b2 && a3 == b3) by (bit_vector);
}

} // verus!
