//! The wave channel: it plays the 32 samples of its wave memory.
use crate::bus::{Readable, Writable};
use crate::sound::frequency_register::FrequencyRegister;
use vstd::prelude::*;

verus! {

/// The address of the register that switches the channel on.
pub const ENABLE: u16 = 0xFF1A;

/// The address of the sound length register.
pub const SOUND_LENGTH: u16 = 0xFF1B;

/// The address of the output level register.
pub const OUTPUT_LEVEL: u16 = 0xFF1C;

/// The address of the low frequency register, which can only be written.
pub const FREQUENCY_LOW: u16 = 0xFF1D;

/// The address of the high frequency register.
pub const FREQUENCY_HIGH: u16 = 0xFF1E;

/// The first address of the wave memory.
pub const WAVE_START: u16 = 0xFF30;

/// The last address of the wave memory.
pub const WAVE_END: u16 = 0xFF3F;

/// What a read yields at an address that holds nothing readable.
pub const UNMAPPED: u8 = 0xFF;

/// The registers of the wave channel and its wave memory, two samples to
/// the byte.
pub struct WaveChannel {
    pub enable_register: u8,
    pub sound_length: u8,
    pub output_level: u8,
    pub frequency_register: FrequencyRegister,
    pub wave: [u8; 16],
}

impl Default for WaveChannel {
    fn default() -> (r: Self)
        ensures
            r.is_reset(),
    {
        WaveChannel {
            enable_register: 0,
            sound_length: 0,
            output_level: 0,
            frequency_register: FrequencyRegister::default(),
            wave: [0; 16],
        }
    }
}

impl WaveChannel {
    /// Whether every register and all of the wave memory is zero, as they
    /// are to begin with.
    pub open spec fn is_reset(&self) -> bool {
        &&& self.enable_register == 0
        &&& self.sound_length == 0
        &&& self.output_level == 0
        &&& self.frequency_register.is_reset()
        &&& forall|i: int| 0 <= i < 16 ==> self.wave[i] == 0
    }
}

impl Readable for WaveChannel {
    open spec fn byte_at(&self, address: u16) -> u8 {
        if address == ENABLE {
            self.enable_register
        } else if address == SOUND_LENGTH {
            self.sound_length
        } else if address == OUTPUT_LEVEL {
            self.output_level
        } else if address == FREQUENCY_HIGH {
            self.frequency_register.high_register
        } else if WAVE_START <= address <= WAVE_END {
            self.wave[address - WAVE_START]
        } else {
            UNMAPPED
        }
    }

    fn read(&self, address: u16) -> (value: u8) {
        match address {
            0xFF1A => self.enable_register,
            0xFF1B => self.sound_length,
            0xFF1C => self.output_level,
            0xFF1E => self.frequency_register.high_register,
            0xFF30..=0xFF3F => self.wave[(address - 0xFF30) as usize],
            _ => 0xFF,
        }
    }
}

impl Writable for WaveChannel {
    open spec fn after_write(&self, address: u16, value: u8) -> Self {
        if address == ENABLE {
            WaveChannel { enable_register: value, ..*self }
        } else if address == SOUND_LENGTH {
            WaveChannel { sound_length: value, ..*self }
        } else if address == OUTPUT_LEVEL {
            WaveChannel { output_level: value, ..*self }
        } else if address == FREQUENCY_LOW {
            WaveChannel {
                frequency_register: FrequencyRegister {
                    low_register: value,
                    ..self.frequency_register
                },
                ..*self
            }
        } else if address == FREQUENCY_HIGH {
            WaveChannel {
                frequency_register: FrequencyRegister {
                    high_register: value,
                    ..self.frequency_register
                },
                ..*self
            }
        } else if WAVE_START <= address <= WAVE_END {
            WaveChannel {
                wave: vstd::array::spec_array_update(self.wave, address - WAVE_START, value),
                ..*self
            }
        } else {
            *self
        }
    }

    fn write(&mut self, address: u16, value: u8) {
        match address {
            0xFF1A => self.enable_register = value,
            0xFF1B => self.sound_length = value,
            0xFF1C => self.output_level = value,
            0xFF1D => self.frequency_register.low_register = value,
            0xFF1E => self.frequency_register.high_register = value,
            0xFF30..=0xFF3F => {
                self.wave[(address - 0xFF30) as usize] = value;
                assert(self.wave =~= vstd::array::spec_array_update(
                    old(self).wave,
                    address - WAVE_START,
                    value,
                ));
            },
            _ => {},
        }
    }
}

} // verus!
