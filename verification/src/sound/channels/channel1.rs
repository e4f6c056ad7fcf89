//! The first tone channel: a square wave with a frequency sweep and a
//! volume envelope.
use crate::bus::{Readable, Writable};
use crate::sound::frequency_register::FrequencyRegister;
use crate::sound::sweep_register::SweepRegister;
use crate::sound::volume_envelope::VolumeEnvelope;
use crate::sound::wave_duty_register::WaveDutyRegister;
use vstd::prelude::*;

verus! {

/// The address of the sweep register.
pub const SWEEP: u16 = 0xFF10;

/// The address of the duty and length register.
pub const WAVE_DUTY: u16 = 0xFF11;

/// The address of the volume envelope register.
pub const ENVELOPE: u16 = 0xFF12;

/// The address of the low frequency register, which can only be written.
pub const FREQUENCY_LOW: u16 = 0xFF13;

/// The address of the high frequency register.
pub const FREQUENCY_HIGH: u16 = 0xFF14;

/// What a read yields at an address that holds nothing readable.
pub const UNMAPPED: u8 = 0xFF;

/// The registers of the first tone channel.
pub struct Channel1 {
    sweep_register: SweepRegister,
    wave_duty_register: WaveDutyRegister,
    volume_envelope: VolumeEnvelope,
    frequency_register: FrequencyRegister,
}

impl Default for Channel1 {
    fn default() -> (r: Self)
        ensures
            r.is_reset(),
    {
        Channel1 {
            sweep_register: SweepRegister::default(),
            wave_duty_register: WaveDutyRegister::default(),
            volume_envelope: VolumeEnvelope::default(),
            frequency_register: FrequencyRegister::default(),
        }
    }
}

impl Channel1 {
    /// Whether every part of the channel is as it is to begin with.
    pub open spec fn is_reset(&self) -> bool {
        self.sweep().is_reset() && self.wave_duty().is_reset() && self.envelope().is_reset()
            && self.frequency().is_reset()
    }

    /// The sweep register and its state.
    pub closed spec fn sweep(&self) -> SweepRegister {
        self.sweep_register
    }

    /// The duty and length register and its timer.
    pub closed spec fn wave_duty(&self) -> WaveDutyRegister {
        self.wave_duty_register
    }

    /// The volume envelope register and its state.
    pub closed spec fn envelope(&self) -> VolumeEnvelope {
        self.volume_envelope
    }

    /// The two frequency registers.
    pub closed spec fn frequency(&self) -> FrequencyRegister {
        self.frequency_register
    }

    /// The channel made of the four parts given.
    pub closed spec fn of(
        sweep: SweepRegister,
        wave_duty: WaveDutyRegister,
        envelope: VolumeEnvelope,
        frequency: FrequencyRegister,
    ) -> Channel1 {
        Channel1 {
            sweep_register: sweep,
            wave_duty_register: wave_duty,
            volume_envelope: envelope,
            frequency_register: frequency,
        }
    }

    /// A channel is its four parts.
    pub proof fn lemma_of(
        self,
        sweep: SweepRegister,
        wave_duty: WaveDutyRegister,
        envelope: VolumeEnvelope,
        frequency: FrequencyRegister,
    )
        ensures
            Self::of(sweep, wave_duty, envelope, frequency).sweep() == sweep,
            Self::of(sweep, wave_duty, envelope, frequency).wave_duty() == wave_duty,
            Self::of(sweep, wave_duty, envelope, frequency).envelope() == envelope,
            Self::of(sweep, wave_duty, envelope, frequency).frequency() == frequency,
            self == Self::of(self.sweep(), self.wave_duty(), self.envelope(), self.frequency()),
    {
    }

    /// Clocks the sweep, the length timer and the envelope, once each. The
    /// length timer does not wrap: a channel whose timer is at 255 cannot
    /// be clocked.
    pub fn clock(&mut self)
        requires
            old(self).wave_duty().timer_value() < 255,
        ensures
            final(self).sweep().clocked(&old(self).sweep()),
            final(self).wave_duty().clocked(&old(self).wave_duty()),
            final(self).envelope().clocked(&old(self).envelope()),
            final(self).frequency() == old(self).frequency(),
    {
        self.sweep_register.clock();
        self.wave_duty_register.clock();
        self.volume_envelope.clock();
    }
}

impl Readable for Channel1 {
    open spec fn byte_at(&self, address: u16) -> u8 {
        if address == SWEEP {
            self.sweep().control()
        } else if address == WAVE_DUTY {
            self.wave_duty().control()
        } else if address == ENVELOPE {
            self.envelope().control()
        } else if address == FREQUENCY_HIGH {
            self.frequency().high_register
        } else {
            UNMAPPED
        }
    }

    fn read(&self, address: u16) -> (value: u8) {
        match address {
            0xFF10 => self.sweep_register.register(),
            0xFF11 => self.wave_duty_register.register(),
            0xFF12 => self.volume_envelope.register(),
            0xFF14 => self.frequency_register.high_register,
            _ => 0xFF,
        }
    }
}

impl Writable for Channel1 {
    open spec fn after_write(&self, address: u16, value: u8) -> Self {
        Self::of(
            if address == SWEEP {
                self.sweep().with_control(value)
            } else {
                self.sweep()
            },
            if address == WAVE_DUTY {
                self.wave_duty().with_control(value)
            } else {
                self.wave_duty()
            },
            if address == ENVELOPE {
                self.envelope().with_control(value)
            } else {
                self.envelope()
            },
            if address == FREQUENCY_LOW {
                FrequencyRegister { low_register: value, ..self.frequency() }
            } else if address == FREQUENCY_HIGH {
                FrequencyRegister { high_register: value, ..self.frequency() }
            } else {
                self.frequency()
            },
        )
    }

    fn write(&mut self, address: u16, value: u8) {
        match address {
            0xFF10 => self.sweep_register.set_register(value),
            0xFF11 => self.wave_duty_register.set_register(value),
            0xFF12 => self.volume_envelope.set_register(value),
            0xFF13 => self.frequency_register.low_register = value,
            0xFF14 => self.frequency_register.high_register = value,
            _ => {},
        }
    }
}

} // verus!
