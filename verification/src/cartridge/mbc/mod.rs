//! Memory bank controllers: the chip on a cartridge that decides which part
//! of its memory the processor sees.
use crate::cartridge::Cartridge;
use vstd::prelude::*;

pub mod mbc3;
pub mod real_time_clock;

verus! {

/// The first address of the window through which external memory is seen.
pub const RAM_WINDOW: u16 = 0xA000;

/// The number of bytes in one bank of external memory.
pub const RAM_BANK_SIZE: usize = 0x2000;

/// Where in the external memory of a cartridge the byte at `address` is,
/// bank `bank` being selected.
pub open spec fn ram_offset(bank: u8, address: u16) -> int {
    (address - RAM_WINDOW) + bank * RAM_BANK_SIZE
}

/// A memory bank controller. It is configured by writes to the address
/// range of the read-only memory, which cannot itself be written.
pub trait MemoryBankController: Sized {
    /// The selected bank of read-only memory.
    spec fn selected_rom_bank(&self) -> u8;

    /// The selected bank of external memory.
    spec fn selected_ram_bank(&self) -> u8;

    /// Whether external memory is enabled.
    spec fn ram_is_enabled(&self) -> bool;

    /// Whether `self` is what a write of `value` to `address` makes of
    /// `before`.
    spec fn wrote_rom(&self, before: &Self, address: u16, value: u8) -> bool;

    /// Whether the controller can serve a read of `address` from
    /// `cartridge`: where the byte is in the cartridge's buffer, the buffer
    /// is long enough to hold it.
    spec fn ram_readable(&self, address: u16, cartridge: &Cartridge) -> bool;

    /// What a read of `address` in the window of external memory yields.
    spec fn ram_byte(&self, address: u16, cartridge: &Cartridge) -> u8;

    fn rom_bank(&self) -> (r: u8)
        ensures
            r == self.selected_rom_bank(),
    ;

    fn ram_bank(&self) -> (r: u8)
        ensures
            r == self.selected_ram_bank(),
    ;

    fn ram_enabled(&self) -> (r: bool)
        ensures
            r == self.ram_is_enabled(),
    ;

    fn write_rom(&mut self, address: u16, value: u8)
        ensures
            final(self).wrote_rom(old(self), address, value),
    ;

    fn read_ram(&self, address: u16, cartridge: &Cartridge) -> (r: u8)
        requires
            self.ram_readable(address, cartridge),
        ensures
            r == self.ram_byte(address, cartridge),
    ;

    /// Where in the external memory the byte at `address` is, for the bank
    /// that is selected. `address` is in the window of external memory, or
    /// behind it.
    fn relative_ram_address(&self, address: u16) -> (r: usize)
        requires
            address >= RAM_WINDOW,
        ensures
            r == ram_offset(self.selected_ram_bank(), address),
    {
        (address - RAM_WINDOW) as usize + self.ram_bank() as usize * RAM_BANK_SIZE
    }
}

} // verus!
