//! Single-bit access to a byte. Bit 0 is the least significant bit.
use vstd::prelude::*;

verus! {

/// Whether bit `idx` of `value` is set. A byte has no bit beyond bit 7, so
/// for `idx >= 8` the answer is `false`.
pub open spec fn bit_of(value: u8, idx: u8) -> bool {
    idx < 8 && (value >> idx) & 1 == 1
}

/// `value` with bit `idx` forced to `bit`. A byte has no bit beyond bit 7, so
/// for `idx >= 8` the byte is unchanged.
pub open spec fn with_bit(value: u8, idx: u8, bit: bool) -> u8 {
    if idx >= 8 {
        value
    } else if bit {
        value | (1u8 << idx)
    } else {
        value & !(1u8 << idx)
    }
}

pub fn get_bit(value: u8, idx: u8) -> (r: bool)
    ensures
        r == bit_of(value, idx),
{
    if idx >= 8 {
        false
    } else {
        (value >> idx) & 1 == 1
    }
}

pub fn set_bit(value: u8, idx: u8, bit: bool) -> (r: u8)
    ensures
        r == with_bit(value, idx, bit),
{
    if idx >= 8 {
        value
    } else if bit {
        value | (1u8 << idx)
    } else {
        value & !(1u8 << idx)
    }
}

/// Reading back a bit that was just written yields what was written, and
/// every other bit is as it was.
pub proof fn lemma_set_then_get(value: u8, idx: u8, bit: bool, other: u8)
    requires
        idx < 8,
        other < 8,
    ensures
        bit_of(with_bit(value, idx, bit), idx) == bit,
        other != idx ==> bit_of(with_bit(value, idx, bit), other) == bit_of(value, other),
{
    assert(((value | (1u8 << idx)) >> idx) & 1 == 1 && ((value & !(1u8 << idx)) >> idx) & 1 == 0
        && (other != idx ==> ((value | (1u8 << idx)) >> other) & 1 == (value >> other) & 1 && ((
    value & !(1u8 << idx)) >> other) & 1 == (value >> other) & 1)) by (bit_vector)
        requires
            idx < 8,
            other < 8,
    ;
}

/// The low nibble of a byte is the byte modulo 16, and the high nibble is
/// the rest.
pub proof fn lemma_nibbles(byte: u8)
    ensures
        byte & 0x0F == byte % 16,
        byte & 0xF0 == byte - byte % 16,
        (byte & 0xF0) & 0x0F == 0,
        (byte & 0x10 == 0x10) == (byte / 16 % 2 == 1),
{
    assert(byte & 0x0F == byte % 16 && byte & 0xF0 == byte - byte % 16 && (byte & 0xF0) & 0x0F == 0
        && (byte & 0x10 == 0x10) == (byte / 16 % 2 == 1)) by (bit_vector);
}

/// The fields that the registers of the sound unit are made of.
pub proof fn lemma_byte_fields(byte: u8)
    ensures
        byte & 0x07 == byte % 8,
        byte & 0x3F == byte % 64,
        byte & 0x7F == byte % 128,
        byte >> 4 == byte / 16,
        (byte >> 4) & 0x07 == (byte / 16) % 8,
        (byte >> 3) & 1 == (byte / 8) % 2,
{
    assert(byte & 0x07 == byte % 8 && byte & 0x3F == byte % 64 && byte & 0x7F == byte % 128 && byte
        >> 4 == byte / 16 && (byte >> 4) & 0x07 == (byte / 16) % 8 && (byte >> 3) & 1 == (byte / 8)
        % 2) by (bit_vector);
}

/// The top four bits of a byte, one by one.
pub proof fn lemma_top_bits(byte: u8)
    ensures
        (byte & 0x80 != 0) == (byte / 128 % 2 == 1),
        (byte & 0x40 != 0) == (byte / 64 % 2 == 1),
        (byte & 0x20 != 0) == (byte / 32 % 2 == 1),
        (byte & 0x10 != 0) == (byte / 16 % 2 == 1),
{
    assert((byte & 0x80 != 0) == (byte / 128 % 2 == 1) && (byte & 0x40 != 0) == (byte / 64 % 2
        == 1) && (byte & 0x20 != 0) == (byte / 32 % 2 == 1) && (byte & 0x10 != 0) == (byte / 16 % 2
        == 1)) by (bit_vector);
}

/// The low bits of a 16-bit word are the word modulo a power of two.
pub proof fn lemma_word_fields(word: u16)
    ensures
        word & 0x0007 == word % 8,
        word & 0x000F == word % 16,
        word & 0x00FF == word % 256,
        word & 0x0FFF == word % 4096,
        (word & 0x1000 == 0x1000) == (word / 4096 % 2 == 1),
{
    assert(word & 0x0007 == word % 8 && word & 0x000F == word % 16 && word & 0x00FF == word % 256
        && word & 0x0FFF == word % 4096 && (word & 0x1000 == 0x1000) == (word / 4096 % 2 == 1))
        by (bit_vector);
}

/// The two bytes of a 16-bit word.
pub proof fn lemma_word_bytes(word: u16)
    ensures
        word >> 8 == word / 256,
        (word >> 8) % 256 == word / 256,
        ((word & 0xFF) as u8) == word % 256,
        ((word >> 8) as u8) == word / 256,
        ((word & 0xFF) as u8 & 0xF0) == word % 256 - word % 16,
{
    assert(word >> 8 == word / 256 && (word >> 8) % 256 == word / 256 && ((word & 0xFF) as u8)
        == word % 256 && ((word >> 8) as u8) == word / 256 && ((word & 0xFF) as u8 & 0xF0) == word
        % 256 - word % 16) by (bit_vector);
}

} // verus!
