//! The cartridge: the bytes of the game and of its memory, and what is
//! known about them.
use vstd::prelude::*;

pub mod cartridge_capability;
pub mod mbc;

verus! {

/// What the header of a cartridge says about it.
pub struct CartridgeMetadata {
    /// The number of bytes of read-only memory.
    pub rom_size: usize,
}

/// A cartridge: its read-only memory and, behind it in the same buffer,
/// its banks of external memory.
pub struct Cartridge {
    pub buffer: Vec<u8>,
    pub metadata: CartridgeMetadata,
}

} // verus!
