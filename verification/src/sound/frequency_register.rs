//! The two frequency registers of a tone channel.
use crate::util::bits;
use crate::util::bits::bit_of;
use vstd::prelude::*;

verus! {

/// The frequency of a channel: eleven bits, the low eight in one register,
/// the high three in the low bits of another, whose top bits are controls.
#[derive(Copy, Clone)]
pub struct FrequencyRegister {
    pub low_register: u8,
    pub high_register: u8,
}

impl Default for FrequencyRegister {
    fn default() -> (r: Self)
        ensures
            r.is_reset(),
    {
        FrequencyRegister { low_register: 0, high_register: 0 }
    }
}

impl FrequencyRegister {
    /// Whether both registers hold zero, as they do to begin with.
    pub open spec fn is_reset(self) -> bool {
        self.low_register == 0 && self.high_register == 0
    }

    /// The eleven-bit frequency value.
    pub open spec fn frequency(self) -> int {
        (self.high_register % 8) * 256 + self.low_register
    }

    /// The period of the channel: 2048 more than the frequency value.
    pub fn period(self) -> (r: i16)
        ensures
            r == 2048 + self.frequency(),
    {
        let high: u16 = self.high_register as u16;
        let low: u16 = self.low_register as u16;
        let frequency: u16 = ((high & 0b111) << 8) | low;
        assert(frequency == (high % 8) * 256 + low) by (bit_vector)
            requires
                frequency == ((high & 0b111) << 8) | low,
                low < 256,
        ;
        let value: i16 = -(frequency as i16);
        2048_i16 - value
    }

    /// Whether the output stops once the sound length is attained.
    pub fn is_finite(self) -> (r: bool)
        ensures
            r == bit_of(self.high_register, 6),
    {
        bits::get_bit(self.high_register, 6)
    }

    /// Whether the channel is to restart.
    pub fn is_triggered(self) -> (r: bool)
        ensures
            r == bit_of(self.high_register, 7),
    {
        bits::get_bit(self.high_register, 7)
    }
}

} // verus!
