//! Facts about bit operations on bytes and words, stated arithmetically.

use vstd::prelude::*;

verus! {

pub proof fn lemma_byte_sign(v: u8)
    by (bit_vector)
    ensures
        (v & 0x80 != 0) == (v >= 0x80),
        (v & 1 != 0) == (v % 2 == 1),
{
}

pub proof fn lemma_byte_shift_left(v: u8)
    by (bit_vector)
    ensures
        (v << 1u8) as int == (2 * v) % 256,
{
}

pub proof fn lemma_byte_rotate_left(v: u8, c: u8)
    by (bit_vector)
    requires
        c <= 1,
    ensures
        ((v << 1u8) | c) as int == (2 * v + c) % 256,
{
}

pub proof fn lemma_byte_shift_right(v: u8)
    by (bit_vector)
    ensures
        (v >> 1u8) as int == v / 2,
{
}

pub proof fn lemma_byte_rotate_right(v: u8, c: u8)
    by (bit_vector)
    requires
        c <= 1,
    ensures
        ((v >> 1u8) | (c << 7u8)) as int == v / 2 + 128 * c,
{
}


pub proof fn lemma_byte_bits_low(v: u8)
    by (bit_vector)
    ensures
        (v & 1 != 0) == (v % 2 == 1),
        ((v >> 1u8) & 1 != 0) == ((v / 2) % 2 == 1),
        ((v >> 2u8) & 1 != 0) == ((v / 4) % 2 == 1),
        ((v >> 3u8) & 1 != 0) == ((v / 8) % 2 == 1),
        ((v >> 2u8) & 3) as int == (v / 4) % 4,
        ((v >> 1u8) != 0) == (v / 2 != 0),
{
}

pub proof fn lemma_nibbles(v: u8)
    by (bit_vector)
    ensures
        (v & 0xF) as int == v % 16,
        (v >> 4u8) as int == v / 16,
{
}

/// Two-bit fields of a register byte: bits 0-1 and bits 4-5.
pub proof fn lemma_two_bit_fields(v: u8)
    by (bit_vector)
    ensures
        (v & 3) as int == v % 4,
        ((v >> 4u8) & 3) as int == v / 16 % 4,
{
}

/// The offset of an address inside a 32, 16 or 8 KiB window.
pub proof fn lemma_window_offsets(a: u16)
    by (bit_vector)
    ensures
        (a & 0x7FFF) as int == a % 0x8000,
        (a & 0x3FFF) as int == a % 0x4000,
        (a & 0x1FFF) as int == a % 0x2000,
{
}

pub proof fn lemma_u32_low_half(x: u32)
    by (bit_vector)
    ensures
        (x as u16) as int == x % 0x10000,
{
}

pub proof fn lemma_byte_sign_xor(a: u8, b: u8)
    by (bit_vector)
    ensures
        (((a ^ b) & 0x80) != 0) == ((a >= 0x80) != (b >= 0x80)),
{
}

pub proof fn lemma_word_bits(x: u16)
    by (bit_vector)
    ensures
        (x as u8) as int == x % 256,
        (x & 0xff) as int == x % 256,
        ((x >> 8u16) as u8) as int == x / 256,
        (x & 0xff00 != 0) == (x >= 256),
        (x & 0xff00 == 0) == (x < 256),
        (x & 0x80 != 0) == (x % 256 >= 128),
        (x | 0xFF00) as int == 0xFF00 + x % 256,
        (x & 0xff00) as int == x - x % 256,
{
}

pub proof fn lemma_same_page(a: u16, b: u16)
    by (bit_vector)
    ensures
        ((a & 0xff00) == (b & 0xff00)) == (a / 256 == b / 256),
{
}

pub proof fn lemma_word_from_bytes(low: u16, high: u16)
    by (bit_vector)
    requires
        low < 256,
        high < 256,
    ensures
        ((high << 8u16) | low) as int == high * 256 + low,
{
}

pub proof fn lemma_or_word(low: u16, high: u16)
    by (bit_vector)
    requires
        low < 256,
        high < 256,
    ensures
        (0u16 | low) == low,
        (low | (high << 8u16)) as int == high * 256 + low,
{
}

pub proof fn lemma_or_zero(x: u16)
    by (bit_vector)
    ensures
        (x | 0u16) == x,
{
}

pub proof fn lemma_stack_address(sp: u8)
    by (bit_vector)
    ensures
        (0x0100u16 | (sp as u16)) as int == 0x100 + sp,
{
}




/// Masks and single bits of a byte.
proof fn lemma_byte_mask_facts(v: u8)
    by (bit_vector)
    ensures
        v & 0b11110 <= 30,
        v & 0b00011 < 4,
        v & 0b11111 < 32,
        v & 0xF < 16,
        (v & 0xF) & 0xF == v & 0xF,
        (v & 0x7F) & 0x7F == v & 0x7F,
        v & 0b111 < 8,
        v & 0x3 < 4,
        v & 0x1F < 32,
        (v >> 6u8) & 0x3 == v >> 6u8,
        v & !1u8 == v & 0xFE,
        (v >> 0u8) & 1 == v & 1,
        ((v >> 1u8) & 1 != 0) == (v & 2 != 0),
        ((v >> 2u8) & 1 != 0) == (v & 4 != 0),
        ((v >> 3u8) & 1 != 0) == (v & 8 != 0),
        ((v >> 4u8) & 1 == 0) == (v & 0x10 == 0),
{
}

/// Masks of a byte stay in their ranges.
pub proof fn lemma_byte_masks(v: u8)
    ensures
        v & 0b11110 <= 30,
        v & 0b00011 < 4,
        v & 0b11111 < 32,
{
    lemma_byte_mask_facts(v);
}

/// Masks of a register byte stay in their ranges.
pub proof fn lemma_register_masks(v: u8)
    ensures
        v & 0xF < 16,
        (v & 0xF) & 0xF == v & 0xF,
        (v & 0x7F) & 0x7F == v & 0x7F,
        v & 0b111 < 8,
        v & 0x3 < 4,
        v & 0x1F < 32,
{
    lemma_byte_mask_facts(v);
}

/// The top two bits, and the byte with its low bit cleared.
pub proof fn lemma_register_fields(v: u8)
    ensures
        (v >> 6u8) & 0x3 == v >> 6u8,
        v & !1u8 == v & 0xFE,
{
    lemma_byte_mask_facts(v);
}

/// The low five bits of a byte, read one by one.
pub proof fn lemma_low_bits(v: u8)
    ensures
        (v >> 0u8) & 1 == v & 1,
        ((v >> 1u8) & 1 != 0) == (v & 2 != 0),
        ((v >> 2u8) & 1 != 0) == (v & 4 != 0),
        ((v >> 3u8) & 1 != 0) == (v & 8 != 0),
        ((v >> 4u8) & 1 == 0) == (v & 0x10 == 0),
{
    lemma_byte_mask_facts(v);
}

/// The low 13 bits of an address, taken before or after widening.
pub proof fn lemma_address_low13(address: u16)
    by (bit_vector)
    ensures
        address as usize & 0x1FFF == (address & 0x1FFF) as usize,
{
}

} // verus!
