//! The AF register pair, split into the accumulator and the four status
//! flags, and the carry arithmetic that feeds those flags.
use crate::processor::register::{high_byte, low_byte, DualRegister, Register, SingleRegister};
use crate::util::bitflags::{BitMask, Bitflags};
use crate::util::bits::{lemma_nibbles, lemma_word_fields};
use vstd::prelude::*;
use vstd::std_specs::convert::FromSpecImpl;

verus! {

/// One of the four status flags. A flag is a bit position in the flags byte
/// and nothing more.
#[derive(Copy, Clone, Debug, PartialEq, Eq, Structural)]
pub enum Flag {
    /// c: set when an addition carries out of the top bit.
    Carry,
    /// h: set on a carry out of the low nibble.
    HalfCarry,
    /// n: set when the last operation was a subtraction.
    AddSub,
    /// z: set when the last result was zero.
    Zero,
}

impl BitMask for Flag {
    /// The mask of the flag's bit in the flags byte.
    open spec fn mask(self) -> u8 {
        match self {
            Flag::Carry => 16,
            Flag::HalfCarry => 32,
            Flag::AddSub => 64,
            Flag::Zero => 128,
        }
    }

    fn to_mask(self) -> (r: u8) {
        match self {
            Flag::Carry => 16,
            Flag::HalfCarry => 32,
            Flag::AddSub => 64,
            Flag::Zero => 128,
        }
    }
}

impl From<Flag> for u8 {
    fn from(flag: Flag) -> (r: u8) {
        flag.to_mask()
    }
}

impl FromSpecImpl<Flag> for u8 {
    open spec fn obeys_from_spec() -> bool {
        true
    }

    open spec fn from_spec(flag: Flag) -> u8 {
        flag.mask()
    }
}

/// The accumulator and the flags byte. Only the top four bits of the flags
/// byte exist: whatever is written, the low four read back as zero.
pub struct FlagRegister {
    register: DualRegister,
}

impl FlagRegister {
    #[verifier::type_invariant]
    spec fn low_nibble_clear(&self) -> bool {
        self.register.low@ & 0x0F == 0
    }

    /// The accumulator byte.
    pub closed spec fn accumulator_value(&self) -> u8 {
        self.register.high@
    }

    /// The flags byte.
    pub closed spec fn flags_value(&self) -> u8 {
        self.register.low@
    }

    /// The register pair as a 16-bit value, accumulator high.
    pub open spec fn value(&self) -> u16 {
        crate::processor::register::join_bytes(self.accumulator_value(), self.flags_value())
    }

    /// The state right after power-on: accumulator 0x01, flags 0xB0.
    pub fn new() -> (r: FlagRegister)
        ensures
            r.accumulator_value() == 0x01,
            r.flags_value() == 0xB0,
    {
        proof {
            lemma_nibbles(0xB0);
        }
        FlagRegister { register: DualRegister::of_bytes(0x01, 0xB0) }
    }

    pub fn accumulator(&self) -> (r: &SingleRegister)
        ensures
            r@ == self.accumulator_value(),
    {
        &self.register.high
    }

    pub fn flags(&self) -> (r: &SingleRegister)
        ensures
            r@ == self.flags_value(),
            r@ & 0x0F == 0,
    {
        proof {
            use_type_invariant(self);
        }
        &self.register.low
    }

    pub fn set_accumulator(&mut self, value: u8)
        ensures
            final(self).accumulator_value() == value,
            final(self).flags_value() == old(self).flags_value(),
    {
        proof {
            use_type_invariant(&*self);
        }
        let flags: u8 = self.register.low.byte();
        let register = DualRegister::of_bytes(value, flags);
        assert(register.low@ & 0x0F == 0);
        self.register = register;
    }

    /// Writes the flags byte; the low four bits of `value` are dropped.
    pub fn set_flags(&mut self, value: u8)
        ensures
            final(self).flags_value() == value & 0xF0,
            final(self).accumulator_value() == old(self).accumulator_value(),
    {
        proof {
            use_type_invariant(&*self);
        }
        let accumulator: u8 = self.register.high.byte();
        let masked: u8 = value & 0xF0;
        proof {
            lemma_nibbles(value);
        }
        let register = DualRegister::of_bytes(accumulator, masked);
        assert(register.low@ & 0x0F == 0);
        self.register = register;
    }

    pub fn register(&self) -> (r: &DualRegister)
        ensures
            r.high@ == self.accumulator_value(),
            r.low@ == self.flags_value(),
            r.value() == self.value(),
    {
        &self.register
    }

    /// Writes the pair from a 16-bit value: the high byte to the accumulator,
    /// the low byte, less its low nibble, to the flags.
    pub fn set(&mut self, value: u16)
        ensures
            final(self).accumulator_value() == high_byte(value),
            final(self).flags_value() == low_byte(value) & 0xF0,
    {
        self.set_flags((value & 0xFF) as u8);
        self.set_accumulator((value >> 8) as u8);
    }
}

impl Bitflags<Flag> for FlagRegister {
    open spec fn bits(&self) -> u8 {
        self.flags_value()
    }

    open spec fn stored_bits(value: u8) -> u8 {
        value & 0xF0
    }

    fn register(&self) -> (r: u8) {
        self.register.low.byte()
    }

    fn set_register(&mut self, value: u8) {
        self.set_flags(value);
    }
}

/// Carry out of bit 3 when adding two bytes.
pub open spec fn half_carry_add_of(value1: u8, value2: u8) -> bool {
    (value1 % 16) + (value2 % 16) >= 16
}

/// Carry out of bit 11 when adding two 16-bit values.
pub open spec fn half_carry_add16_of(value1: u16, value2: u16) -> bool {
    (value1 % 4096) + (value2 % 4096) >= 4096
}

/// Borrow from bit 4 when subtracting `value2` from `value1`.
pub open spec fn half_carry_sub_of(value1: u8, value2: u8) -> bool {
    value1 % 16 < value2 % 16
}

/// Carry out of bit 7 when adding two bytes.
pub open spec fn carry_add_of(value1: u8, value2: u8) -> bool {
    value1 + value2 > 255
}

pub fn half_carry_add(value1: u8, value2: u8) -> (r: bool)
    ensures
        r == half_carry_add_of(value1, value2),
{
    proof {
        lemma_nibbles(value1);
        lemma_nibbles(value2);
    }
    let sum: u8 = (value1 & 0xf) + (value2 & 0xf);
    proof {
        lemma_nibbles(sum);
    }
    (sum & 0x10) == 0x10
}

pub fn half_carry_add16(value1: u16, value2: u16) -> (r: bool)
    ensures
        r == half_carry_add16_of(value1, value2),
{
    proof {
        lemma_word_fields(value1);
        lemma_word_fields(value2);
    }
    let sum: u16 = (value1 & 0xfff) + (value2 & 0xfff);
    proof {
        lemma_word_fields(sum);
    }
    (sum & 0x1000) == 0x1000
}

pub fn half_carry_sub(value1: u8, value2: u8) -> (r: bool)
    ensures
        r == half_carry_sub_of(value1, value2),
{
    proof {
        lemma_nibbles(value1);
        lemma_nibbles(value2);
    }
    (value1 & 0xF) < (value2 & 0xF)
}

pub fn carry_add(value1: u8, value2: u8) -> (r: bool)
    ensures
        r == carry_add_of(value1, value2),
{
    value1 as u16 + value2 as u16 > 0xFF
}

} // verus!
