//! Facts about bit operations that the arithmetic solver cannot see on its
//! own, proved once by the bit-vector solver and used throughout.

use vstd::prelude::*;

verus! {

/// A mask bounds what it keeps.
pub proof fn lemma_and_le(x: u32, m: u32)
    by (bit_vector)
    ensures
        x & m <= m,
        x & m <= x,
{
}

/// A field shifted down and masked is bounded by its mask.
pub proof fn lemma_field_le(x: u32, k: u32, m: u32)
    by (bit_vector)
    ensures
        (x >> k) & m <= m,
        x >> k <= x,
{
}

/// The two nibbles of a byte.
pub proof fn lemma_nibbles(x: u8)
    by (bit_vector)
    ensures
        x & 0x0f < 16,
        (x >> 4u8) & 0x0f < 16,
        x >> 4u8 < 16,
{
}

/// Bit 15 of a 16-bit value is clear exactly below 0x8000.
pub proof fn lemma_bit15(c: u32)
    by (bit_vector)
    requires
        c < 0x10000,
    ensures
        (c & 0x8000 == 0) <==> c < 0x8000,
{
}

/// Bit 15 of a half-word is clear exactly below 0x8000.
pub proof fn lemma_bit15_u16(c: u16)
    by (bit_vector)
    ensures
        (c & 0x8000 == 0) <==> c < 0x8000,
{
}

/// Alignment tests by masking the low bits.
pub proof fn lemma_alignment(a: u32)
    by (bit_vector)
    ensures
        (a & 1 == 0) <==> a % 2 == 0,
        (a & 3 == 0) <==> a % 4 == 0,
        (a & !3u32) % 4 == 0,
        a & 3 < 4,
{
}

/// A half-word address times 8 stays below the last block of sound RAM.
pub proof fn lemma_times8(a: u32)
    by (bit_vector)
    ensures
        a <= 0xfffe ==> a << 3u32 <= 0x7fff0,
{
}

/// The register index of an offset within 16-byte register blocks.
pub proof fn lemma_block_index(offset: u32)
    by (bit_vector)
    ensures
        offset < 0x70 ==> offset >> 4u32 < 7,
        offset <= 0x2f ==> offset >> 4u32 < 3,
{
}

/// Powers of two that small shifts give.
pub proof fn lemma_small_shifts()
    by (bit_vector)
    ensures
        1i32 << 0u32 == 1,
        1i32 << 1u32 == 2,
        1i32 << 2u32 == 4,
        1i32 << 3u32 == 8,
        1i32 << 4u32 == 16,
        1i32 << 5u32 == 32,
        1i32 << 6u32 == 64,
        1i32 << 7u32 == 128,
        1i32 << 8u32 == 256,
        1i32 << 9u32 == 512,
        1i32 << 10u32 == 1024,
        1i32 << 11u32 == 2048,
        1i32 << 12u32 == 4096,
        0x8000u32 >> 0u32 == 0x8000,
        0x8000u32 >> 1u32 == 0x4000,
        0x8000u32 >> 2u32 == 0x2000,
        0x8000u32 >> 3u32 == 0x1000,
        0x8000u32 >> 4u32 == 0x800,
        0x8000u32 >> 5u32 == 0x400,
        0x8000u32 >> 6u32 == 0x200,
        0x8000u32 >> 7u32 == 0x100,
        0x8000u32 >> 8u32 == 0x80,
        0x8000u32 >> 9u32 == 0x40,
        0x8000u32 >> 10u32 == 0x20,
        0x8000u32 >> 11u32 == 0x10,
        0x8000u32 >> 12u32 == 0x8,
        0x8000u32 >> 13u32 == 0x4,
        0x8000u32 >> 14u32 == 0x2,
        0x8000u32 >> 15u32 == 0x1,
        1u16 << 7usize == 0x80,
{
}

/// The low ten and the low nine bits of a signed value are in range.
pub proof fn lemma_isize_low_bits(v: isize)
    by (bit_vector)
    ensures
        0 <= v & 0x3ff <= 0x3ff,
        0 <= v & 0x1ff <= 0x1ff,
{
}

/// The column and row fields of a CLUT attribute, as arithmetic.
pub proof fn lemma_clut_fields(c: u16)
    by (bit_vector)
    ensures
        (c as usize & 0x3f) == c % 64,
        ((c as usize >> 6usize) & 0x1ff) == (c / 64) % 512,
{
}

/// A DMA step of 4 bytes down, as the unsigned addend that wraps.
pub proof fn lemma_step_down()
    ensures
        (-4i32) as u32 == 0xffff_fffcu32,
{
    assert((-4i32) as u32 == 0xffff_fffcu32) by (bit_vector);
}

} // verus!
