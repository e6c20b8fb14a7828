//! CRC-32 (IEEE, reflected) and 64-bit FNV-1a, as stored in record headers.
use vstd::prelude::*;

verus! {

/// One reflected CRC-32 shift of the running register.
pub open spec fn crc32_bit(crc: u32) -> u32 {
    if crc & 1 == 1 {
        (crc >> 1u32) ^ 0xedb8_8320u32
    } else {
        crc >> 1u32
    }
}

/// `count` reflected shifts of the running register.
pub open spec fn crc32_bits(crc: u32, count: nat) -> u32
    decreases count,
{
    if count == 0 {
        crc
    } else {
        crc32_bit(crc32_bits(crc, (count - 1) as nat))
    }
}

/// The register after absorbing one more byte.
pub open spec fn crc32_byte(crc: u32, byte: u8) -> u32 {
    crc32_bits(crc ^ (byte as u32), 8)
}

/// The register after absorbing every byte of `bytes`, starting from all ones.
pub open spec fn crc32_register(bytes: Seq<u8>) -> u32
    decreases bytes.len(),
{
    if bytes.len() == 0 {
        0xffff_ffffu32
    } else {
        crc32_byte(crc32_register(bytes.drop_last()), bytes.last())
    }
}

/// The IEEE CRC-32 of `bytes`.
pub open spec fn spec_crc32(bytes: Seq<u8>) -> u32 {
    !crc32_register(bytes)
}

/// The FNV-1a 64-bit state after absorbing every byte of `bytes`.
pub open spec fn spec_fnv1a64(bytes: Seq<u8>) -> u64
    decreases bytes.len(),
{
    if bytes.len() == 0 {
        0xcbf2_9ce4_8422_2325u64
    } else {
        (spec_fnv1a64(bytes.drop_last()) ^ (bytes.last() as u64)).wrapping_mul(
            0x0000_0100_0000_01b3u64,
        )
    }
}

/// The IEEE CRC-32 of `bytes`.
pub fn crc32(bytes: &[u8]) -> (crc: u32)
    ensures
        crc == spec_crc32(bytes@),
{
    let mut crc: u32 = 0xffff_ffff;
    let mut i: usize = 0;
    while i < bytes.len()
        invariant
            i <= bytes@.len(),
            crc == crc32_register(bytes@.take(i as int)),
        decreases bytes@.len() - i,
    {
        let ghost before = crc;
        crc = crc ^ (bytes[i] as u32);
        let ghost start = crc;
        let mut bit: usize = 0;
        while bit < 8
            invariant
                bit <= 8,
                crc == crc32_bits(start, bit as nat),
            decreases 8 - bit,
        {
            if crc & 1 == 1 {
                crc = (crc >> 1u32) ^ 0xedb8_8320u32;
            } else {
                crc = crc >> 1u32;
            }
            bit += 1;
        }
        assert(bytes@.take((i + 1) as int).drop_last() =~= bytes@.take(i as int));
        i += 1;
    }
    assert(bytes@.take(i as int) =~= bytes@);
    !crc
}

/// The 64-bit FNV-1a hash of `bytes`.
pub fn fnv1a64(bytes: &[u8]) -> (hash: u64)
    ensures
        hash == spec_fnv1a64(bytes@),
{
    let mut hash: u64 = 0xcbf2_9ce4_8422_2325;
    let mut i: usize = 0;
    while i < bytes.len()
        invariant
            i <= bytes@.len(),
            hash == spec_fnv1a64(bytes@.take(i as int)),
        decreases bytes@.len() - i,
    {
        hash = (hash ^ (bytes[i] as u64)).wrapping_mul(0x0000_0100_0000_01b3u64);
        assert(bytes@.take((i + 1) as int).drop_last() =~= bytes@.take(i as int));
        i += 1;
    }
    assert(bytes@.take(i as int) =~= bytes@);
    hash
}

/// Distinct registers stay distinct after one reflected shift: the top bit of
/// the result is the low bit shifted out, and the rest is the register above it.
proof fn lemma_crc32_bit_injective(a: u32, b: u32)
    requires
        crc32_bit(a) == crc32_bit(b),
    ensures
        a == b,
{
    assert((if a & 1 == 1 { (a >> 1u32) ^ 0xedb8_8320u32 } else { a >> 1u32 }) == (if b & 1 == 1 {
        (b >> 1u32) ^ 0xedb8_8320u32
    } else {
        b >> 1u32
    }) ==> a == b) by (bit_vector);
}

proof fn lemma_crc32_bits_injective(a: u32, b: u32, count: nat)
    requires
        crc32_bits(a, count) == crc32_bits(b, count),
    ensures
        a == b,
    decreases count,
{
    if count > 0 {
        lemma_crc32_bit_injective(crc32_bits(a, (count - 1) as nat), crc32_bits(b, (count - 1) as nat));
        lemma_crc32_bits_injective(a, b, (count - 1) as nat);
    }
}

/// Absorbing the same byte into distinct registers, or distinct bytes into the
/// same register, gives distinct registers.
proof fn lemma_crc32_byte_distinct(a: u32, x: u8, b: u32, y: u8)
    requires
        a ^ (x as u32) != b ^ (y as u32),
    ensures
        crc32_byte(a, x) != crc32_byte(b, y),
{
    if crc32_byte(a, x) == crc32_byte(b, y) {
        lemma_crc32_bits_injective(a ^ (x as u32), b ^ (y as u32), 8);
    }
}

proof fn lemma_crc32_register_distinct(bytes: Seq<u8>, position: int, byte: u8)
    requires
        0 <= position < bytes.len(),
        byte != bytes[position],
    ensures
        crc32_register(bytes.update(position, byte)) != crc32_register(bytes),
    decreases bytes.len(),
{
    let changed = bytes.update(position, byte);
    let last = (bytes.len() - 1) as int;
    if position == last {
        assert(changed.drop_last() =~= bytes.drop_last());
        let r = crc32_register(bytes.drop_last());
        let old_byte = bytes.last();
        assert((r ^ (byte as u32) != r ^ (old_byte as u32))) by (bit_vector)
            requires
                byte != old_byte,
        ;
        assert(changed.last() == byte);
        lemma_crc32_byte_distinct(r, byte, r, old_byte);
    } else {
        assert(changed.drop_last() =~= bytes.drop_last().update(position, byte));
        lemma_crc32_register_distinct(bytes.drop_last(), position, byte);
        let r1 = crc32_register(changed.drop_last());
        let r2 = crc32_register(bytes.drop_last());
        let c = bytes.last();
        assert(changed.last() == c);
        assert((r1 ^ (c as u32) != r2 ^ (c as u32))) by (bit_vector)
            requires
                r1 != r2,
        ;
        lemma_crc32_byte_distinct(r1, c, r2, c);
    }
}

/// Changing any one byte changes the CRC-32.
pub proof fn lemma_crc32_detects_one_byte_change(bytes: Seq<u8>, position: int, byte: u8)
    requires
        0 <= position < bytes.len(),
        byte != bytes[position],
    ensures
        spec_crc32(bytes.update(position, byte)) != spec_crc32(bytes),
{
    lemma_crc32_register_distinct(bytes, position, byte);
    let a = crc32_register(bytes.update(position, byte));
    let b = crc32_register(bytes);
    assert(a != b ==> !a != !b) by (bit_vector);
}

} // verus!
