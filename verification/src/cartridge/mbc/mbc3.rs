//! The MBC3 controller: up to 128 banks of read-only memory, eight banks of
//! external memory, and on some cartridges a real-time clock that takes the
//! place of the external memory when one of its registers is selected.
use crate::cartridge::cartridge_capability::CartridgeCapability;
use crate::cartridge::mbc::real_time_clock::{RTCRegister, RealTimeClock};
use crate::cartridge::mbc::{ram_offset, MemoryBankController};
use crate::cartridge::Cartridge;
use vstd::prelude::*;

verus! {

/// What the window of external memory shows.
#[derive(Copy, Clone, Debug, PartialEq, Eq, Structural)]
pub enum MBC3Mode {
    /// The selected bank of external memory.
    RAM,
    /// The selected register of the clock.
    RTC,
}

/// The state of an MBC3 controller.
pub struct MBC3 {
    rom_bank: u8,
    ram_enabled: bool,
    ram_bank: u8,
    mode: MBC3Mode,
    clock: Option<RealTimeClock>,
}

/// A write up to this address enables or disables external memory.
pub const RAM_ENABLE_END: u16 = 0x1FFF;

/// A write up to this address, and behind `RAM_ENABLE_END`, selects the
/// bank of read-only memory.
pub const ROM_BANK_END: u16 = 0x3FFF;

/// A write up to this address, and behind `ROM_BANK_END`, selects the bank
/// of external memory or the register of the clock.
pub const RAM_BANK_END: u16 = 0x5FFF;

/// The value that enables external memory.
pub const RAM_ENABLE: u8 = 0x0A;

/// The bank of read-only memory that a written value selects: its low
/// seven bits, and bank 1 where those are zero.
pub open spec fn rom_bank_selected(value: u8) -> u8 {
    if value % 128 == 0 {
        1
    } else {
        value % 128
    }
}

impl MBC3 {
    /// What the window of external memory shows.
    pub closed spec fn mode_value(&self) -> MBC3Mode {
        self.mode
    }

    /// The clock, if the cartridge has one.
    pub closed spec fn clock_value(&self) -> Option<RealTimeClock> {
        self.clock
    }

    /// A controller as it is after power-on, for a cartridge with the
    /// capabilities given: bank 1 of read-only memory and bank 0 of
    /// external memory selected, external memory disabled, and a clock if
    /// the cartridge has a timer.
    pub fn new(capabilities: &[CartridgeCapability]) -> (r: MBC3)
        ensures
            r.selected_rom_bank() == 1,
            r.selected_ram_bank() == 0,
            !r.ram_is_enabled(),
            r.mode_value() == MBC3Mode::RAM,
            r.clock_value() == if capabilities@.contains(CartridgeCapability::Timer) {
                Some(
                    RealTimeClock {
                        seconds: 0,
                        minutes: 0,
                        hours: 0,
                        day_low: 0,
                        day_high: 0,
                        active: RTCRegister::Seconds,
                    },
                )
            } else {
                None
            },
    {
        let mut has_timer: bool = false;
        let mut i: usize = 0;
        while i < capabilities.len()
            invariant
                i <= capabilities.len(),
                has_timer == capabilities@.subrange(0, i as int).contains(
                    CartridgeCapability::Timer,
                ),
            decreases capabilities.len() - i,
        {
            let ghost before = capabilities@.subrange(0, i as int);
            if capabilities[i] == CartridgeCapability::Timer {
                has_timer = true;
            }
            i = i + 1;
            proof {
                let after = capabilities@.subrange(0, i as int);
                assert(after == before.push(capabilities@[i - 1]));
                assert(after.last() == capabilities@[i - 1]);
                assert forall|j: int| 0 <= j < before.len() implies before[j] == after[j] by {}
                if before.contains(CartridgeCapability::Timer) {
                    let j = choose|j: int|
                        0 <= j < before.len() && before[j] == CartridgeCapability::Timer;
                    assert(after[j] == CartridgeCapability::Timer);
                }
            }
        }
        assert(capabilities@.subrange(0, i as int) == capabilities@);
        let clock = if has_timer {
            Some(RealTimeClock::new())
        } else {
            None
        };
        MBC3 { rom_bank: 1, ram_enabled: false, ram_bank: 0, mode: MBC3Mode::RAM, clock }
    }

    pub fn mode(&self) -> (r: &MBC3Mode)
        ensures
            *r == self.mode_value(),
    {
        &self.mode
    }

    pub fn set_ram_enabled(&mut self, value: bool)
        ensures
            final(self).ram_is_enabled() == value,
            final(self).selected_rom_bank() == old(self).selected_rom_bank(),
            final(self).selected_ram_bank() == old(self).selected_ram_bank(),
            final(self).mode_value() == old(self).mode_value(),
            final(self).clock_value() == old(self).clock_value(),
    {
        self.ram_enabled = value;
    }

    pub fn clock(&self) -> (r: &Option<RealTimeClock>)
        ensures
            *r == self.clock_value(),
    {
        &self.clock
    }
}

impl MemoryBankController for MBC3 {
    closed spec fn selected_rom_bank(&self) -> u8 {
        self.rom_bank
    }

    closed spec fn selected_ram_bank(&self) -> u8 {
        self.ram_bank
    }

    closed spec fn ram_is_enabled(&self) -> bool {
        self.ram_enabled
    }

    /// A write to the first range enables external memory if the value is
    /// 0x0A and disables it otherwise. A write to the second selects the
    /// bank of read-only memory. A write of 0 to 7 to the third selects
    /// that bank of external memory and shows it in the window; a write of
    /// 0x08 to 0x0C selects that register of the clock and shows it in the
    /// window, if the cartridge has a clock. Any other write changes
    /// nothing, and no write changes what is not named here.
    open spec fn wrote_rom(&self, before: &Self, address: u16, value: u8) -> bool {
        let selects_ram = RAM_ENABLE_END < address <= ROM_BANK_END;
        let selects_bank = ROM_BANK_END < address <= RAM_BANK_END;
        let selects_register = selects_bank && before.clock_value() is Some
            && RTCRegister::selected_by(value) is Some;
        &&& self.ram_is_enabled() == if address <= RAM_ENABLE_END {
            value == RAM_ENABLE
        } else {
            before.ram_is_enabled()
        }
        &&& self.selected_rom_bank() == if selects_ram {
            rom_bank_selected(value)
        } else {
            before.selected_rom_bank()
        }
        &&& self.selected_ram_bank() == if selects_bank && value <= 7 {
            value
        } else {
            before.selected_ram_bank()
        }
        &&& self.mode_value() == if selects_bank && value <= 7 {
            MBC3Mode::RAM
        } else if selects_register {
            MBC3Mode::RTC
        } else {
            before.mode_value()
        }
        &&& self.clock_value() == if selects_register {
            Some(
                RealTimeClock {
                    active: RTCRegister::selected_by(value)->0,
                    ..before.clock_value()->0
                },
            )
        } else {
            before.clock_value()
        }
    }

    /// While the window shows external memory, the byte read must be in
    /// the cartridge's buffer, behind the read-only memory.
    open spec fn ram_readable(&self, address: u16, cartridge: &Cartridge) -> bool {
        self.mode_value() == MBC3Mode::RAM ==> address >= crate::cartridge::mbc::RAM_WINDOW
            && ram_offset(self.selected_ram_bank(), address) + cartridge.metadata.rom_size
            < cartridge.buffer@.len()
    }

    /// The byte of external memory, or the selected register of the clock;
    /// zero where the window is to show a clock that the cartridge does not
    /// have.
    open spec fn ram_byte(&self, address: u16, cartridge: &Cartridge) -> u8 {
        if self.mode_value() == MBC3Mode::RAM {
            cartridge.buffer@[ram_offset(self.selected_ram_bank(), address)
                + cartridge.metadata.rom_size]
        } else {
            match self.clock_value() {
                Some(clock) => clock.value_of(clock.active),
                None => 0,
            }
        }
    }

    fn rom_bank(&self) -> (r: u8) {
        self.rom_bank
    }

    fn ram_bank(&self) -> (r: u8) {
        self.ram_bank
    }

    fn ram_enabled(&self) -> (r: bool) {
        self.ram_enabled
    }

    fn write_rom(&mut self, address: u16, value: u8) {
        match address {
            0..=0x1FFF => {
                self.ram_enabled = value == 0x0A;
            },
            0x2000..=0x3FFF => {
                proof {
                    crate::util::bits::lemma_byte_fields(value);
                }
                let bank: u8 = value & 0x7F;
                self.rom_bank = if bank >= 1 {
                    bank
                } else {
                    1
                };
            },
            0x4000..=0x5FFF => {
                match value {
                    0..=0x7 => {
                        self.mode = MBC3Mode::RAM;
                        self.ram_bank = value;
                    },
                    0x8..=0xC => {
                        if let (Some(clock), Some(register)) = (
                            &mut self.clock,
                            RTCRegister::from_value(value),
                        ) {
                            clock.set_active_register(register);
                            self.mode = MBC3Mode::RTC;
                        }
                    },
                    _ => {},
                }
            },
            _ => {},
        }
    }

    fn read_ram(&self, address: u16, cartridge: &Cartridge) -> (r: u8) {
        if let MBC3Mode::RAM = &self.mode {
            assert(cartridge.buffer@.len() == cartridge.buffer.len());
            let address: usize = self.relative_ram_address(address) + cartridge.metadata.rom_size;
            cartridge.buffer[address]
        } else if let Some(clock) = &self.clock {
            clock.active_value()
        } else {
            0
        }
    }
}

} // verus!
