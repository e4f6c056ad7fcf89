//! The noise channel.
use crate::bus::{Readable, Writable};
use crate::sound::volume_envelope::VolumeEnvelope;
use crate::util::bits;
use crate::util::bits::{bit_of, with_bit};
use vstd::prelude::*;

verus! {

/// The address of the sound length register.
pub const SOUND_LENGTH: u16 = 0xFF20;

/// The address of the volume envelope register.
pub const ENVELOPE: u16 = 0xFF21;

/// The address of the frequency and randomness register.
pub const FREQUENCY_RANDOMNESS: u16 = 0xFF22;

/// What a read yields at an address that holds nothing readable.
pub const UNMAPPED: u8 = 0xFF;

/// The registers of the noise channel and its shift register.
pub struct NoiseChannel {
    pub sound_length: u8,
    pub volume_envelope: VolumeEnvelope,
    pub shift_register: u8,
    pub frequency_randomness_register: u8,
}

impl Default for NoiseChannel {
    fn default() -> (r: Self)
        ensures
            r.is_reset(),
    {
        NoiseChannel {
            sound_length: 0,
            volume_envelope: VolumeEnvelope::default(),
            shift_register: 0,
            frequency_randomness_register: 0,
        }
    }
}

/// A fresh random bit, from `rand::random`. Nothing is known of it but that
/// it is a bit.
#[verifier::external_body]
fn random_bit() -> (bit: bool) {
    rand::random()
}

/// The shift register after one shift in which `next_bit` came in. The
/// register moves one place down and is masked with the incoming bit, so
/// that only its lowest bit can survive. The feedback, bit 0 of the old
/// value exclusive-or bit 1, goes to bit 15, which a byte does not have,
/// and, in long mode, to bit 7.
pub open spec fn shifted(register: u8, long_mode: bool, next_bit: bool) -> u8 {
    let feedback = bit_of(register, 0) != bit_of(register, 1);
    let moved = (register >> 1) & (if next_bit {
        1u8
    } else {
        0u8
    });
    let fed = with_bit(moved, 15, feedback);
    if long_mode {
        with_bit(fed, 7, feedback)
    } else {
        fed
    }
}

impl NoiseChannel {
    /// Whether every part of the channel is as it is to begin with.
    pub open spec fn is_reset(&self) -> bool {
        self.sound_length == 0 && self.shift_register == 0 && self.frequency_randomness_register
            == 0 && self.volume_envelope.is_reset()
    }

    /// Bit 3 of the frequency and randomness register.
    pub open spec fn long_mode(&self) -> bool {
        bit_of(self.frequency_randomness_register, 3)
    }

    pub fn is_long_mode(&self) -> (r: bool)
        ensures
            r == self.long_mode(),
    {
        bits::get_bit(self.frequency_randomness_register, 3)
    }

    /// Shifts the shift register once, with a random incoming bit.
    pub fn shift(&mut self)
        ensures
            exists|next_bit: bool|
                final(self).shift_register == #[trigger] shifted(
                    old(self).shift_register,
                    old(self).long_mode(),
                    next_bit,
                ),
            final(self).sound_length == old(self).sound_length,
            final(self).volume_envelope == old(self).volume_envelope,
            final(self).frequency_randomness_register == old(self).frequency_randomness_register,
    {
        let next_bit: bool = random_bit();
        self.shift_with(next_bit);
    }

    /// Shifts the shift register once, `next_bit` being the incoming bit.
    pub fn shift_with(&mut self, next_bit: bool)
        ensures
            final(self).shift_register == shifted(
                old(self).shift_register,
                old(self).long_mode(),
                next_bit,
            ),
            final(self).sound_length == old(self).sound_length,
            final(self).volume_envelope == old(self).volume_envelope,
            final(self).frequency_randomness_register == old(self).frequency_randomness_register,
    {
        let result: bool = bits::get_bit(self.shift_register, 0) ^ bits::get_bit(
            self.shift_register,
            1,
        );
        let incoming: u8 = if next_bit {
            1
        } else {
            0
        };
        self.shift_register = (self.shift_register >> 1) & incoming;

        self.shift_register = bits::set_bit(self.shift_register, 15, result);
        if self.is_long_mode() {
            self.shift_register = bits::set_bit(self.shift_register, 7, result);
        }
    }
}

impl Readable for NoiseChannel {
    open spec fn byte_at(&self, address: u16) -> u8 {
        if address == SOUND_LENGTH {
            self.sound_length
        } else if address == ENVELOPE {
            self.volume_envelope.control()
        } else if address == FREQUENCY_RANDOMNESS {
            self.frequency_randomness_register
        } else {
            UNMAPPED
        }
    }

    fn read(&self, address: u16) -> (value: u8) {
        match address {
            0xFF20 => self.sound_length,
            0xFF21 => self.volume_envelope.register(),
            0xFF22 => self.frequency_randomness_register,
            _ => 0xFF,
        }
    }
}

impl Writable for NoiseChannel {
    open spec fn after_write(&self, address: u16, value: u8) -> Self {
        if address == SOUND_LENGTH {
            NoiseChannel { sound_length: value, ..*self }
        } else if address == ENVELOPE {
            NoiseChannel { volume_envelope: self.volume_envelope.with_control(value), ..*self }
        } else if address == FREQUENCY_RANDOMNESS {
            NoiseChannel { frequency_randomness_register: value, ..*self }
        } else {
            *self
        }
    }

    fn write(&mut self, address: u16, value: u8) {
        match address {
            0xFF20 => {
                self.sound_length = value
            },
            0xFF21 => {
                self.volume_envelope.set_register(value)
            },
            0xFF22 => {
                self.frequency_randomness_register = value
            },
            _ => {},
        }
    }
}

} // verus!
