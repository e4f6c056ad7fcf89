//! The second tone channel: a square wave with a volume envelope.
use crate::bus::{Readable, Writable};
use crate::sound::frequency_register::FrequencyRegister;
use crate::sound::volume_envelope::VolumeEnvelope;
use crate::sound::wave_duty_register::WaveDutyRegister;
use vstd::prelude::*;

verus! {

/// The address of the duty and length register.
pub const WAVE_DUTY: u16 = 0xFF16;

/// The address of the volume envelope register.
pub const ENVELOPE: u16 = 0xFF17;

/// The address of the low frequency register, which can only be written.
pub const FREQUENCY_LOW: u16 = 0xFF18;

/// The address of the high frequency register.
pub const FREQUENCY_HIGH: u16 = 0xFF19;

/// What a read yields at an address that holds nothing readable.
pub const UNMAPPED: u8 = 0xFF;

/// The registers of the second tone channel.
pub struct Channel2 {
    pub wave_duty_register: WaveDutyRegister,
    pub volume_envelope: VolumeEnvelope,
    pub frequency_register: FrequencyRegister,
}

impl Default for Channel2 {
    fn default() -> (r: Self)
        ensures
            r.is_reset(),
    {
        Channel2 {
            wave_duty_register: WaveDutyRegister::default(),
            volume_envelope: VolumeEnvelope::default(),
            frequency_register: FrequencyRegister::default(),
        }
    }
}

impl Channel2 {
    /// Whether every part of the channel is as it is to begin with.
    pub open spec fn is_reset(&self) -> bool {
        self.wave_duty_register.is_reset() && self.volume_envelope.is_reset()
            && self.frequency_register.is_reset()
    }
}

impl Readable for Channel2 {
    open spec fn byte_at(&self, address: u16) -> u8 {
        if address == WAVE_DUTY {
            self.wave_duty_register.control()
        } else if address == ENVELOPE {
            self.volume_envelope.control()
        } else if address == FREQUENCY_HIGH {
            self.frequency_register.high_register
        } else {
            UNMAPPED
        }
    }

    fn read(&self, address: u16) -> (value: u8) {
        match address {
            0xFF16 => self.wave_duty_register.register(),
            0xFF17 => self.volume_envelope.register(),
            0xFF19 => self.frequency_register.high_register,
            _ => 0xFF,
        }
    }
}

impl Writable for Channel2 {
    open spec fn after_write(&self, address: u16, value: u8) -> Self {
        if address == WAVE_DUTY {
            Channel2 { wave_duty_register: self.wave_duty_register.with_control(value), ..*self }
        } else if address == ENVELOPE {
            Channel2 { volume_envelope: self.volume_envelope.with_control(value), ..*self }
        } else if address == FREQUENCY_LOW {
            Channel2 {
                frequency_register: FrequencyRegister {
                    low_register: value,
                    ..self.frequency_register
                },
                ..*self
            }
        } else if address == FREQUENCY_HIGH {
            Channel2 {
                frequency_register: FrequencyRegister {
                    high_register: value,
                    ..self.frequency_register
                },
                ..*self
            }
        } else {
            *self
        }
    }

    fn write(&mut self, address: u16, value: u8) {
        match address {
            0xFF16 => self.wave_duty_register.set_register(value),
            0xFF17 => self.volume_envelope.set_register(value),
            0xFF18 => self.frequency_register.low_register = value,
            0xFF19 => self.frequency_register.high_register = value,
            _ => {},
        }
    }
}

} // verus!
