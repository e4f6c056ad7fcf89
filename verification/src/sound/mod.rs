//! The sound unit: four channels behind one window of the address space.
use crate::bus::{Readable, Writable};
use crate::sound::channels::channel1::Channel1;
use crate::sound::channels::channel2::Channel2;
use crate::sound::channels::noise_channel::NoiseChannel;
use crate::sound::channels::wave_channel::WaveChannel;
use crate::sound::output_register::OutputRegister;
use crate::util::bits;
use crate::util::bits::bit_of;
use vstd::prelude::*;

pub mod channels;
pub mod frequency_register;
pub mod output_register;
pub mod sweep_register;
pub mod volume_envelope;
pub mod wave_duty_register;

verus! {

/// The address of the output selection register.
pub const OUTPUT: u16 = 0xFF25;

/// What a read yields at an address that holds nothing readable.
pub const UNMAPPED: u8 = 0xFF;

/// Which part of the sound unit an address belongs to.
#[derive(Copy, Clone, Debug, PartialEq, Eq, Structural)]
pub enum SoundPart {
    Channel1,
    Channel2,
    Wave,
    Noise,
    Output,
    Nothing,
}

/// The part of the sound unit that an address belongs to.
pub open spec fn part_at(address: u16) -> SoundPart {
    if 0xFF10 <= address <= 0xFF14 {
        SoundPart::Channel1
    } else if 0xFF16 <= address <= 0xFF19 {
        SoundPart::Channel2
    } else if 0xFF1A <= address <= 0xFF1E || 0xFF30 <= address <= 0xFF3F {
        SoundPart::Wave
    } else if 0xFF20 <= address <= 0xFF23 {
        SoundPart::Noise
    } else if address == OUTPUT {
        SoundPart::Output
    } else {
        SoundPart::Nothing
    }
}

/// The sound unit.
pub struct Sound {
    pub channel1: Channel1,
    pub channel2: Channel2,
    pub wave_channel: WaveChannel,
    pub noise_channel: NoiseChannel,
    pub output_register: OutputRegister,
    pub sound_enabled: bool,
    /// The divider as it was at the last clock.
    pub last_divider: u8,
}

impl Default for Sound {
    fn default() -> (r: Self)
        ensures
            r.channel1.is_reset(),
            r.channel2.is_reset(),
            r.wave_channel.is_reset(),
            r.noise_channel.is_reset(),
            r.output_register.register == 0,
            !r.sound_enabled,
            r.last_divider == 0,
    {
        Sound {
            channel1: Channel1::default(),
            channel2: Channel2::default(),
            wave_channel: WaveChannel::default(),
            noise_channel: NoiseChannel::default(),
            output_register: OutputRegister::default(),
            sound_enabled: false,
            last_divider: 0,
        }
    }
}

impl Sound {
    /// Whether this clock is a tick of the sound unit: bit 4 of the divider
    /// has just fallen.
    pub open spec fn ticks_at(&self, divider: u8) -> bool {
        bit_of(self.last_divider, 4) && !bit_of(divider, 4)
    }

    /// Takes note of the divider. A tick of the sound unit, at the fall of
    /// bit 4 of the divider, moves nothing yet.
    pub fn clock(&mut self, divider: u8)
        ensures
            *final(self) == (Sound { last_divider: divider, ..*old(self) }),
    {
        if bits::get_bit(self.last_divider, 4) && !bits::get_bit(divider, 4) {
            self.tick();
        }
        self.last_divider = divider;
    }

    /// One tick of the sound unit.
    fn tick(&mut self)
        ensures
            *final(self) == *old(self),
    {
    }
}

impl Readable for Sound {
    open spec fn byte_at(&self, address: u16) -> u8 {
        match part_at(address) {
            SoundPart::Channel1 => self.channel1.byte_at(address),
            SoundPart::Channel2 => self.channel2.byte_at(address),
            SoundPart::Wave => self.wave_channel.byte_at(address),
            SoundPart::Noise => self.noise_channel.byte_at(address),
            SoundPart::Output => self.output_register.register,
            SoundPart::Nothing => UNMAPPED,
        }
    }

    fn read(&self, address: u16) -> (value: u8) {
        match address {
            0xFF10..=0xFF14 => self.channel1.read(address),
            0xFF16..=0xFF19 => self.channel2.read(address),
            0xFF1A..=0xFF1E | 0xFF30..=0xFF3F => self.wave_channel.read(address),
            0xFF20..=0xFF23 => self.noise_channel.read(address),
            0xFF25 => self.output_register.register,
            _ => 0xFF,
        }
    }
}

impl Writable for Sound {
    open spec fn after_write(&self, address: u16, value: u8) -> Self {
        match part_at(address) {
            SoundPart::Channel1 => Sound {
                channel1: self.channel1.after_write(address, value),
                ..*self
            },
            SoundPart::Channel2 => Sound {
                channel2: self.channel2.after_write(address, value),
                ..*self
            },
            SoundPart::Wave => Sound {
                wave_channel: self.wave_channel.after_write(address, value),
                ..*self
            },
            SoundPart::Noise => Sound {
                noise_channel: self.noise_channel.after_write(address, value),
                ..*self
            },
            SoundPart::Output => Sound {
                output_register: OutputRegister { register: value },
                ..*self
            },
            SoundPart::Nothing => *self,
        }
    }

    fn write(&mut self, address: u16, value: u8) {
        match address {
            0xFF10..=0xFF14 => self.channel1.write(address, value),
            0xFF16..=0xFF19 => self.channel2.write(address, value),
            0xFF1A..=0xFF1E | 0xFF30..=0xFF3F => self.wave_channel.write(address, value),
            0xFF20..=0xFF23 => self.noise_channel.write(address, value),
            0xFF25 => self.output_register.register = value,
            _ => {},
        }
    }
}

} // verus!
