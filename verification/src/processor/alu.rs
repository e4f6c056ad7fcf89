//! The arithmetic of the processor: each operation as a function from its
//! inputs to its result and the flags it leaves.
//!
//! The specifications are written in ordinary arithmetic on numbers; the
//! functions that run work on bits, as the hardware does.
use crate::util::bits::{lemma_nibbles, lemma_top_bits, lemma_word_fields};
use vstd::prelude::*;

verus! {

/// The four status flags.
#[derive(Copy, Clone, Debug, PartialEq, Eq, Structural)]
pub struct Flags {
    /// z: the result was zero.
    pub zero: bool,
    /// n: the operation was a subtraction.
    pub subtract: bool,
    /// h: there was a carry out of, or a borrow into, the low nibble.
    pub half_carry: bool,
    /// c: there was a carry out of, or a borrow into, the whole.
    pub carry: bool,
}

/// One, if `bit` is set, and zero otherwise.
pub open spec fn weight(bit: bool) -> int {
    if bit {
        1
    } else {
        0
    }
}

impl Flags {
    /// The flags as the flags byte holds them: z in bit 7, n in bit 6, h in
    /// bit 5, c in bit 4.
    pub open spec fn byte(self) -> u8 {
        (128 * weight(self.zero) + 64 * weight(self.subtract) + 32 * weight(self.half_carry) + 16
            * weight(self.carry)) as u8
    }

    /// The flags that a flags byte holds.
    pub open spec fn of_byte(byte: u8) -> Flags {
        Flags {
            zero: byte / 128 % 2 == 1,
            subtract: byte / 64 % 2 == 1,
            half_carry: byte / 32 % 2 == 1,
            carry: byte / 16 % 2 == 1,
        }
    }

    pub fn to_byte(self) -> (r: u8)
        ensures
            r == self.byte(),
            Flags::of_byte(r) == self,
            r % 16 == 0,
    {
        let mut byte: u8 = 0;
        if self.zero {
            byte = byte + 128;
        }
        if self.subtract {
            byte = byte + 64;
        }
        if self.half_carry {
            byte = byte + 32;
        }
        if self.carry {
            byte = byte + 16;
        }
        byte
    }

    pub fn from_byte(byte: u8) -> (r: Flags)
        ensures
            r == Flags::of_byte(byte),
    {
        proof {
            lemma_top_bits(byte);
        }
        Flags {
            zero: byte & 128 != 0,
            subtract: byte & 64 != 0,
            half_carry: byte & 32 != 0,
            carry: byte & 16 != 0,
        }
    }
}

/// `a + b + carry`: the sum modulo 256, h for a carry out of bit 3, c for a
/// carry out of bit 7.
pub open spec fn sum_of(a: u8, b: u8, carry: bool) -> (u8, Flags) {
    let sum = a + b + weight(carry);
    (
        (sum % 256) as u8,
        Flags {
            zero: sum % 256 == 0,
            subtract: false,
            half_carry: a % 16 + b % 16 + weight(carry) > 15,
            carry: sum > 255,
        },
    )
}

/// `a - b - carry`: the difference modulo 256, h for a borrow into bit 3, c
/// for a borrow into bit 7.
pub open spec fn difference_of(a: u8, b: u8, carry: bool) -> (u8, Flags) {
    let difference = a - b - weight(carry);
    (
        (difference % 256) as u8,
        Flags {
            zero: difference % 256 == 0,
            subtract: true,
            half_carry: a % 16 < b % 16 + weight(carry),
            carry: difference < 0,
        },
    )
}

pub fn add(a: u8, b: u8, carry: bool) -> (r: (u8, Flags))
    ensures
        r == sum_of(a, b, carry),
{
    let carry_in: u16 = if carry {
        1
    } else {
        0
    };
    let sum: u16 = a as u16 + b as u16 + carry_in;
    proof {
        lemma_nibbles(a);
        lemma_nibbles(b);
        lemma_word_fields(sum);
    }
    let low: u8 = (a & 0x0F) + (b & 0x0F) + carry_in as u8;
    let result: u8 = (sum & 0xFF) as u8;
    (result, Flags { zero: result == 0, subtract: false, half_carry: low > 0x0F, carry: sum > 0xFF })
}

pub fn subtract(a: u8, b: u8, carry: bool) -> (r: (u8, Flags))
    ensures
        r == difference_of(a, b, carry),
{
    let carry_in: u8 = if carry {
        1
    } else {
        0
    };
    let result: u8 = a.wrapping_sub(b).wrapping_sub(carry_in);
    proof {
        lemma_nibbles(a);
        lemma_nibbles(b);
    }
    (
        result,
        Flags {
            zero: result == 0,
            subtract: true,
            half_carry: (a & 0x0F) < (b & 0x0F) + carry_in,
            carry: (a as u16) < b as u16 + carry_in as u16,
        },
    )
}

/// The flags of a bitwise operation with result `result`: `and` sets h.
pub open spec fn logic_flags(result: u8, half_carry: bool) -> Flags {
    Flags { zero: result == 0, subtract: false, half_carry, carry: false }
}

pub fn and(a: u8, b: u8) -> (r: (u8, Flags))
    ensures
        r == (a & b, logic_flags(a & b, true)),
{
    let result: u8 = a & b;
    (result, Flags { zero: result == 0, subtract: false, half_carry: true, carry: false })
}

pub fn or(a: u8, b: u8) -> (r: (u8, Flags))
    ensures
        r == (a | b, logic_flags(a | b, false)),
{
    let result: u8 = a | b;
    (result, Flags { zero: result == 0, subtract: false, half_carry: false, carry: false })
}

pub fn xor(a: u8, b: u8) -> (r: (u8, Flags))
    ensures
        r == (a ^ b, logic_flags(a ^ b, false)),
{
    let result: u8 = a ^ b;
    (result, Flags { zero: result == 0, subtract: false, half_carry: false, carry: false })
}

/// `value + 1` modulo 256; h for a carry out of bit 3; c stays as it is.
pub open spec fn incremented(value: u8, flags: Flags) -> (u8, Flags) {
    (
        ((value + 1) % 256) as u8,
        Flags {
            zero: value == 255,
            subtract: false,
            half_carry: value % 16 == 15,
            carry: flags.carry,
        },
    )
}

/// `value - 1` modulo 256; h for a borrow into bit 3; c stays as it is.
pub open spec fn decremented(value: u8, flags: Flags) -> (u8, Flags) {
    (
        ((value - 1) % 256) as u8,
        Flags { zero: value == 1, subtract: true, half_carry: value % 16 == 0, carry: flags.carry },
    )
}

pub fn increment(value: u8, flags: Flags) -> (r: (u8, Flags))
    ensures
        r == incremented(value, flags),
{
    let result: u8 = value.wrapping_add(1);
    proof {
        lemma_nibbles(value);
    }
    (
        result,
        Flags {
            zero: result == 0,
            subtract: false,
            half_carry: value & 0x0F == 0x0F,
            carry: flags.carry,
        },
    )
}

pub fn decrement(value: u8, flags: Flags) -> (r: (u8, Flags))
    ensures
        r == decremented(value, flags),
{
    let result: u8 = value.wrapping_sub(1);
    proof {
        lemma_nibbles(value);
    }
    (
        result,
        Flags { zero: result == 0, subtract: true, half_carry: value & 0x0F == 0, carry: flags.carry },
    )
}

/// The rotations and shifts of a byte.
#[derive(Copy, Clone, Debug, PartialEq, Eq, Structural)]
pub enum Rotation {
    /// Rotate left: bit 7 goes to bit 0 and to c.
    LeftCircular,
    /// Rotate left through c: c goes to bit 0, bit 7 to c.
    Left,
    /// Rotate right: bit 0 goes to bit 7 and to c.
    RightCircular,
    /// Rotate right through c: c goes to bit 7, bit 0 to c.
    Right,
    /// Shift left: zero comes in, bit 7 goes to c.
    ShiftLeft,
    /// Shift right and keep the sign: bit 7 stays, bit 0 goes to c.
    ShiftRightArithmetic,
    /// Shift right: zero comes in, bit 0 goes to c.
    ShiftRightLogical,
    /// Exchange the two nibbles; c is cleared.
    Swap,
}

/// The byte that a rotation makes of `value`, and the bit that goes to c.
pub open spec fn rotated(rotation: Rotation, value: u8, carry: bool) -> (u8, bool) {
    let top = value >= 128;
    let bottom = value % 2 == 1;
    match rotation {
        Rotation::LeftCircular => (((value * 2) % 256 + weight(top)) as u8, top),
        Rotation::Left => (((value * 2) % 256 + weight(carry)) as u8, top),
        Rotation::RightCircular => ((value / 2 + 128 * weight(bottom)) as u8, bottom),
        Rotation::Right => ((value / 2 + 128 * weight(carry)) as u8, bottom),
        Rotation::ShiftLeft => (((value * 2) % 256) as u8, top),
        Rotation::ShiftRightArithmetic => ((value / 2 + 128 * weight(top)) as u8, bottom),
        Rotation::ShiftRightLogical => ((value / 2) as u8, bottom),
        Rotation::Swap => (((value % 16) * 16 + value / 16) as u8, false),
    }
}

/// A rotation with its flags: z where the result is zero and
/// `zero_matters`, which it does not for the rotations of the accumulator
/// in the first table.
pub open spec fn rotation_of(rotation: Rotation, value: u8, carry: bool, zero_matters: bool) -> (
    u8,
    Flags,
) {
    let (result, carry_out) = rotated(rotation, value, carry);
    (
        result,
        Flags {
            zero: zero_matters && result == 0,
            subtract: false,
            half_carry: false,
            carry: carry_out,
        },
    )
}

pub fn rotate(rotation: Rotation, value: u8, carry: bool, zero_matters: bool) -> (r: (u8, Flags))
    ensures
        r == rotation_of(rotation, value, carry, zero_matters),
{
    let carry_in: u8 = if carry {
        1
    } else {
        0
    };
    proof {
        lemma_rotations(value, carry_in);
    }
    let top: bool = value & 0x80 != 0;
    let bottom: bool = value & 1 != 0;
    let (result, carry_out): (u8, bool) = match rotation {
        Rotation::LeftCircular => ((value << 1) | (value >> 7), top),
        Rotation::Left => ((value << 1) | carry_in, top),
        Rotation::RightCircular => ((value >> 1) | (value << 7), bottom),
        Rotation::Right => ((value >> 1) | (carry_in << 7), bottom),
        Rotation::ShiftLeft => (value << 1, top),
        Rotation::ShiftRightArithmetic => ((value >> 1) | (value & 0x80), bottom),
        Rotation::ShiftRightLogical => (value >> 1, bottom),
        Rotation::Swap => ((value << 4) | (value >> 4), false),
    };
    (
        result,
        Flags {
            zero: zero_matters && result == 0,
            subtract: false,
            half_carry: false,
            carry: carry_out,
        },
    )
}

/// The rotations and shifts, as they are done on bits, in arithmetic.
proof fn lemma_rotations(value: u8, carry_in: u8)
    requires
        carry_in <= 1,
    ensures
        (value << 1) | (value >> 7) == (value * 2) % 256 + weight(value >= 128),
        (value << 1) | carry_in == (value * 2) % 256 + carry_in,
        (value >> 1) | (value << 7) == value / 2 + 128 * weight(value % 2 == 1),
        (value >> 1) | (carry_in << 7) == value / 2 + 128 * carry_in,
        value << 1 == (value * 2) % 256,
        (value >> 1) | (value & 0x80) == value / 2 + 128 * weight(value >= 128),
        value >> 1 == value / 2,
        (value << 4) | (value >> 4) == (value % 16) * 16 + value / 16,
        (value & 0x80 != 0) == (value >= 128),
        (value & 1 != 0) == (value % 2 == 1),
{
    assert(((value << 1) | (value >> 7) == (value * 2) % 256 + (if value >= 128 {
        1int
    } else {
        0int
    })) && ((value << 1) | carry_in == (value * 2) % 256 + carry_in) && ((value >> 1) | (value
        << 7) == value / 2 + 128 * (if value % 2 == 1 {
        1int
    } else {
        0int
    })) && ((value >> 1) | (carry_in << 7) == value / 2 + 128 * carry_in) && (value << 1 == (value
        * 2) % 256) && ((value >> 1) | (value & 0x80) == value / 2 + 128 * (if value >= 128 {
        1int
    } else {
        0int
    })) && (value >> 1 == value / 2) && ((value << 4) | (value >> 4) == (value % 16) * 16 + value
        / 16) && ((value & 0x80 != 0) == (value >= 128)) && ((value & 1 != 0) == (value % 2
        == 1))) by (bit_vector)
        requires
            carry_in <= 1,
    ;
}

/// Two to the power `exponent`, for the eight bits of a byte.
pub open spec fn bit_weight(exponent: int) -> int {
    if exponent <= 0 {
        1
    } else if exponent == 1 {
        2
    } else if exponent == 2 {
        4
    } else if exponent == 3 {
        8
    } else if exponent == 4 {
        16
    } else if exponent == 5 {
        32
    } else if exponent == 6 {
        64
    } else {
        128
    }
}

/// Whether bit `index` of `value` is set, bit 0 being the least
/// significant. Only the low three bits of `index` count.
pub open spec fn bit_set(value: u8, index: int) -> bool {
    (value as int / bit_weight(index % 8)) % 2 == 1
}

/// The flags after a test of bit `index`: z where the bit is clear, h set,
/// c as it is.
pub open spec fn tested(value: u8, index: int, flags: Flags) -> Flags {
    Flags { zero: !bit_set(value, index), subtract: false, half_carry: true, carry: flags.carry }
}

/// `value` with bit `index` set or cleared.
pub open spec fn with_bit_set(value: u8, index: int, set: bool) -> u8 {
    if bit_set(value, index) == set {
        value
    } else if set {
        (value + bit_weight(index % 8)) as u8
    } else {
        (value - bit_weight(index % 8)) as u8
    }
}

/// The mask of bit `index % 8`.
fn mask_of(index: u16) -> (r: u8)
    ensures
        r == bit_weight(index as int % 8),
        r == 1 || r == 2 || r == 4 || r == 8 || r == 16 || r == 32 || r == 64 || r == 128,
{
    proof {
        lemma_word_fields(index);
    }
    match index & 7 {
        0 => 1,
        1 => 2,
        2 => 4,
        3 => 8,
        4 => 16,
        5 => 32,
        6 => 64,
        _ => 128,
    }
}

proof fn lemma_mask(value: u8, mask: u8)
    requires
        mask == 1 || mask == 2 || mask == 4 || mask == 8 || mask == 16 || mask == 32 || mask == 64
            || mask == 128,
    ensures
        (value & mask != 0) == ((value / mask) % 2 == 1),
        value & mask != 0 ==> (value | mask) == value && (value & !mask) == value - mask,
        value & mask == 0 ==> (value | mask) == value + mask && (value & !mask) == value,
{
    assert((mask == 1 || mask == 2 || mask == 4 || mask == 8 || mask == 16 || mask == 32 || mask
        == 64 || mask == 128) ==> ((value & mask != 0) == ((value / mask) % 2 == 1)) && (value
        & mask != 0 ==> (value | mask) == value && (value & !mask) == value - mask) && (value
        & mask == 0 ==> (value | mask) == value + mask && (value & !mask) == value))
        by (bit_vector);
}

pub fn test_bit(value: u8, index: u16, flags: Flags) -> (r: Flags)
    ensures
        r == tested(value, index as int, flags),
{
    let mask: u8 = mask_of(index);
    proof {
        lemma_mask(value, mask);
    }
    Flags { zero: value & mask == 0, subtract: false, half_carry: true, carry: flags.carry }
}

pub fn change_bit(value: u8, index: u16, set: bool) -> (r: u8)
    ensures
        r == with_bit_set(value, index as int, set),
{
    let mask: u8 = mask_of(index);
    proof {
        lemma_mask(value, mask);
    }
    if set {
        value | mask
    } else {
        value & !mask
    }
}

/// The accumulator after a decimal adjustment. After an addition, 6 is
/// added to a low digit above 9, or where h is set, and 0x60 to a value
/// above 0x99, or where c is set; after a subtraction, 6 is taken off
/// where h is set and 0x60 where c is set. c is set where 0x60 was added,
/// and kept otherwise.
pub open spec fn decimal_adjusted(a: u8, flags: Flags) -> (u8, Flags) {
    let low = flags.half_carry || (!flags.subtract && a % 16 > 9);
    let high = flags.carry || (!flags.subtract && a > 0x99);
    let correction = 6 * weight(low) + 0x60 * weight(high);
    let result = if flags.subtract {
        (a - correction) % 256
    } else {
        (a + correction) % 256
    };
    (
        result as u8,
        Flags { zero: result == 0, subtract: flags.subtract, half_carry: false, carry: high },
    )
}

pub fn decimal_adjust(a: u8, flags: Flags) -> (r: (u8, Flags))
    ensures
        r == decimal_adjusted(a, flags),
{
    proof {
        lemma_nibbles(a);
    }
    let mut correction: u8 = 0;
    let mut carry: bool = false;
    if flags.half_carry || (!flags.subtract && (a & 0x0F) > 9) {
        correction = correction + 0x06;
    }
    if flags.carry || (!flags.subtract && a > 0x99) {
        correction = correction + 0x60;
        carry = true;
    }
    let result: u8 = if flags.subtract {
        a.wrapping_sub(correction)
    } else {
        a.wrapping_add(correction)
    };
    (result, Flags { zero: result == 0, subtract: flags.subtract, half_carry: false, carry })
}

/// The sum of two 16-bit numbers modulo 65536; h for a carry out of bit
/// 11, c for a carry out of bit 15; z stays as it is.
pub open spec fn wide_sum_of(a: u16, b: u16, flags: Flags) -> (u16, Flags) {
    (
        ((a + b) % 0x10000) as u16,
        Flags {
            zero: flags.zero,
            subtract: false,
            half_carry: a % 4096 + b % 4096 > 4095,
            carry: a + b > 0xFFFF,
        },
    )
}

pub fn add_wide(a: u16, b: u16, flags: Flags) -> (r: (u16, Flags))
    ensures
        r == wide_sum_of(a, b, flags),
{
    proof {
        lemma_word_fields(a);
        lemma_word_fields(b);
    }
    (
        a.wrapping_add(b),
        Flags {
            zero: flags.zero,
            subtract: false,
            half_carry: (a & 0x0FFF) + (b & 0x0FFF) > 0x0FFF,
            carry: a as u32 + b as u32 > 0xFFFF,
        },
    )
}

/// A 16-bit number plus a signed offset that was widened to 16 bits,
/// modulo 65536; h and c are those of the addition of the two low bytes;
/// z is cleared.
pub open spec fn offset_sum_of(a: u16, offset: u16) -> (u16, Flags) {
    (
        ((a + offset) % 0x10000) as u16,
        Flags {
            zero: false,
            subtract: false,
            half_carry: a % 16 + offset % 16 > 15,
            carry: a % 256 + offset % 256 > 255,
        },
    )
}

pub fn add_offset(a: u16, offset: u16) -> (r: (u16, Flags))
    ensures
        r == offset_sum_of(a, offset),
{
    proof {
        lemma_word_fields(a);
        lemma_word_fields(offset);
    }
    (
        a.wrapping_add(offset),
        Flags {
            zero: false,
            subtract: false,
            half_carry: (a & 0x0F) + (offset & 0x0F) > 0x0F,
            carry: (a & 0xFF) + (offset & 0xFF) > 0xFF,
        },
    )
}

} // verus!
