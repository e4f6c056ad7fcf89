//! Register primitives: the 8-bit cell and the 16-bit pair built from two of
//! them.
use vstd::prelude::*;

verus! {

/// A register that is read and written as a 16-bit quantity and stepped by
/// one in either direction. Stepping wraps around at the register's width and
/// never fails.
pub trait Register {
    /// The value the register holds.
    spec fn value(&self) -> u16;

    /// What the register holds after `value` is written to it: the part of
    /// `value` that fits the register's width.
    spec fn stored(value: u16) -> u16;

    fn get(&self) -> (r: u16)
        ensures
            r == self.value(),
    ;

    fn set(&mut self, value: u16)
        ensures
            final(self).value() == Self::stored(value),
    ;

    fn increment(&mut self)
        ensures
            final(self).value() == Self::stored(old(self).value().wrapping_add(1)),
    ;

    fn decrement(&mut self)
        ensures
            final(self).value() == Self::stored(old(self).value().wrapping_sub(1)),
    ;
}

/// One 8-bit hardware register.
pub struct SingleRegister {
    value: u8,
}

impl View for SingleRegister {
    type V = u8;

    /// The byte held in the register.
    closed spec fn view(&self) -> u8 {
        self.value
    }
}

/// Whether the bit that `get_bit` calls `idx` is set in `byte`: `get_bit`
/// counts from the most significant bit, so index 0 is bit 7.
pub open spec fn bit_from_top(byte: u8, idx: u8) -> bool
    recommends
        idx < 8,
{
    (byte >> ((7 - idx) as u8)) & 1 == 1
}

/// `byte` with the bit that `set_bit` calls `idx` forced to `bit`: `set_bit`
/// counts from the least significant bit.
pub open spec fn bit_forced(byte: u8, idx: u8, bit: bool) -> u8
    recommends
        idx < 8,
{
    if bit {
        byte | (1u8 << idx)
    } else {
        byte & !(1u8 << idx)
    }
}

impl SingleRegister {
    pub fn new() -> (r: SingleRegister)
        ensures
            r@ == 0,
    {
        SingleRegister { value: 0 }
    }

    /// The byte held in the register.
    pub fn byte(&self) -> (r: u8)
        ensures
            r == self@,
    {
        self.value
    }

    /// Reads one bit, counting from the most significant: index 0 is bit 7.
    pub fn get_bit(&self, idx: u8) -> (r: bool)
        requires
            idx < 8,
        ensures
            r == bit_from_top(self@, idx),
    {
        (self.value >> (7 - idx)) & 1 == 1
    }

    /// Writes one bit, counting from the least significant: index 0 is bit 0.
    pub fn set_bit(&mut self, idx: u8, value: bool)
        requires
            idx < 8,
        ensures
            final(self)@ == bit_forced(old(self)@, idx, value),
    {
        if value {
            self.value = self.value | (1u8 << idx);
        } else {
            self.value = self.value & !(1u8 << idx);
        }
    }
}

impl Register for SingleRegister {
    open spec fn value(&self) -> u16 {
        self@ as u16
    }

    open spec fn stored(value: u16) -> u16 {
        value % 256
    }

    fn get(&self) -> (r: u16) {
        let r: u16 = self.value as u16;
        assert(r == self.value());
        r
    }

    fn set(&mut self, value: u16) {
        proof {
            crate::util::bits::lemma_word_fields(value);
        }
        self.value = (value & 0xFF) as u8;
        assert(self.value() == Self::stored(value));
    }

    fn increment(&mut self)
        ensures
            final(self)@ == old(self)@.wrapping_add(1),
    {
        self.value = self.value.wrapping_add(1);
        assert(self.value() == Self::stored(old(self).value().wrapping_add(1)));
    }

    fn decrement(&mut self)
        ensures
            final(self)@ == old(self)@.wrapping_sub(1),
    {
        self.value = self.value.wrapping_sub(1);
        assert(self.value() == Self::stored(old(self).value().wrapping_sub(1)));
    }
}

/// A 16-bit register made of two 8-bit cells, the high byte first.
pub struct DualRegister {
    pub high: SingleRegister,
    pub low: SingleRegister,
}

/// The 16-bit value whose high byte is `high` and whose low byte is `low`.
pub open spec fn join_bytes(high: u8, low: u8) -> u16 {
    ((high as u16) << 8) | (low as u16)
}

/// The high byte of a 16-bit value.
pub open spec fn high_byte(value: u16) -> u8 {
    (value >> 8) as u8
}

/// The low byte of a 16-bit value.
pub open spec fn low_byte(value: u16) -> u8 {
    (value & 0xFF) as u8
}

/// Splitting a 16-bit value into its bytes and joining them again changes
/// nothing, in either order; and joining is plain positional arithmetic.
pub proof fn lemma_split_join(value: u16, high: u8, low: u8)
    ensures
        join_bytes(high_byte(value), low_byte(value)) == value,
        high_byte(join_bytes(high, low)) == high,
        low_byte(join_bytes(high, low)) == low,
        join_bytes(high, low) == high * 256 + low,
        high_byte(value) == value / 256,
        low_byte(value) == value % 256,
{
    assert(((((value >> 8) as u8) as u16) << 8) | (((value & 0xFF) as u8) as u16) == value && (((((
    high as u16) << 8) | (low as u16)) >> 8) as u8) == high && (((((high as u16) << 8) | (
    low as u16)) & 0xFF) as u8) == low && ((high as u16) << 8) | (low as u16) == high * 256 + low
        && ((value >> 8) as u8) == value / 256 && ((value & 0xFF) as u8) == value % 256)
        by (bit_vector);
}

impl DualRegister {
    pub fn new() -> (r: DualRegister)
        ensures
            r.high@ == 0,
            r.low@ == 0,
            r.value() == 0,
    {
        let r = DualRegister { high: SingleRegister::new(), low: SingleRegister::new() };
        proof {
            lemma_split_join(0, 0, 0);
        }
        r
    }

    /// A register pair holding the two bytes given.
    pub fn of_bytes(high: u8, low: u8) -> (r: DualRegister)
        ensures
            r.high@ == high,
            r.low@ == low,
    {
        DualRegister { high: SingleRegister { value: high }, low: SingleRegister { value: low } }
    }

    /// A register pair holding `value`.
    pub fn from(value: u16) -> (r: DualRegister)
        ensures
            r.value() == value,
            r.high@ == high_byte(value),
            r.low@ == low_byte(value),
    {
        let mut reg = DualRegister { high: SingleRegister::new(), low: SingleRegister::new() };
        reg.set(value);
        reg
    }
}

impl Register for DualRegister {
    open spec fn value(&self) -> u16 {
        join_bytes(self.high@, self.low@)
    }

    open spec fn stored(value: u16) -> u16 {
        value
    }

    fn get(&self) -> (r: u16) {
        let r: u16 = ((self.high.get() as u16) << 8) | self.low.get() as u16;
        assert(r == self.value());
        r
    }

    fn set(&mut self, value: u16)
        ensures
            final(self).high@ == high_byte(value),
            final(self).low@ == low_byte(value),
    {
        proof {
            lemma_split_join(value, 0, 0);
        }
        self.low.set(value);
        self.high.set(value >> 8);
        proof {
            crate::util::bits::lemma_word_bytes(value);
        }
        assert(self.low@ == low_byte(value) && self.high@ == high_byte(value));
        assert(self.value() == Self::stored(value));
    }

    fn increment(&mut self) {
        let current_value: u16 = self.get();
        self.set(current_value.wrapping_add(1));
        assert(self.value() == Self::stored(old(self).value().wrapping_add(1)));
    }

    fn decrement(&mut self) {
        let current_value: u16 = self.get();
        self.set(current_value.wrapping_sub(1));
        assert(self.value() == Self::stored(old(self).value().wrapping_sub(1)));
    }
}

/// A register pair that holds the two bytes of a 16-bit value reads back as
/// that value: what `DualRegister::from` makes, `get` returns.
pub proof fn lemma_from_reads_back(register: DualRegister, value: u16)
    requires
        register.high@ == high_byte(value),
        register.low@ == low_byte(value),
    ensures
        register.value() == value,
{
    lemma_split_join(value, 0, 0);
}

/// The byte reached from `byte` by `steps` increments.
pub open spec fn incremented(byte: u8, steps: nat) -> u8
    decreases steps,
{
    if steps == 0 {
        byte
    } else {
        incremented(byte, (steps - 1) as nat).wrapping_add(1)
    }
}

/// `steps` increments add `steps` modulo 256.
pub proof fn lemma_incremented(byte: u8, steps: nat)
    ensures
        incremented(byte, steps) == (byte + steps) % 256,
    decreases steps,
{
    if steps > 0 {
        lemma_incremented(byte, (steps - 1) as nat);
    }
}

/// An 8-bit register returns to where it started after 256 increments, and
/// one increment of 0xFF gives 0x00.
pub proof fn lemma_increment_full_cycle(byte: u8)
    ensures
        incremented(byte, 256) == byte,
        incremented(0xFF, 1) == 0,
{
    lemma_incremented(byte, 256);
    lemma_incremented(0xFF, 1);
}

} // verus!
