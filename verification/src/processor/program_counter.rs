//! The instruction cursor.
use crate::bus::Readable;
use crate::processor::register::Register;
use vstd::prelude::*;

verus! {

/// The address at which execution starts once the boot sequence has run.
pub const ENTRY_ADDRESS: u16 = 0x100;

/// The address of the next byte to fetch.
pub struct ProgramCounter {
    value: u16,
}

impl View for ProgramCounter {
    type V = u16;

    /// The address the counter points at.
    closed spec fn view(&self) -> u16 {
        self.value
    }
}

impl ProgramCounter {
    /// The counter that points at `address`.
    pub closed spec fn pointing_at(address: u16) -> ProgramCounter {
        ProgramCounter { value: address }
    }

    /// A counter is determined by the address it points at.
    pub proof fn lemma_pointing_at(self, address: u16)
        ensures
            Self::pointing_at(address)@ == address,
            self == Self::pointing_at(self@),
    {
    }

    /// A counter at the entry address.
    pub fn new() -> (r: ProgramCounter)
        ensures
            r@ == ENTRY_ADDRESS,
    {
        ProgramCounter { value: ENTRY_ADDRESS }
    }

    /// Reads the byte the counter points at, then moves the counter one
    /// byte on, wrapping from 0xFFFF to 0.
    pub fn fetch<H: Readable>(&mut self, bus: &H) -> (value: u8)
        ensures
            value == bus.byte_at(old(self)@),
            final(self)@ == old(self)@.wrapping_add(1),
    {
        let value: u8 = bus.read(self.value);
        self.increment();
        value
    }
}

impl Register for ProgramCounter {
    open spec fn value(&self) -> u16 {
        self@
    }

    open spec fn stored(value: u16) -> u16 {
        value
    }

    fn get(&self) -> (r: u16) {
        let r: u16 = self.value;
        assert(r == self.value());
        r
    }

    fn set(&mut self, value: u16) {
        self.value = value;
        assert(self.value() == Self::stored(value));
    }

    fn increment(&mut self) {
        self.value = self.value.wrapping_add(1);
        assert(self.value() == Self::stored(old(self).value().wrapping_add(1)));
    }

    fn decrement(&mut self) {
        self.value = self.value.wrapping_sub(1);
        assert(self.value() == Self::stored(old(self).value().wrapping_sub(1)));
    }
}

} // verus!
