//! What a cartridge has on board besides read-only memory.
use vstd::prelude::*;

verus! {

/// One thing that a cartridge can have on board.
#[derive(Copy, Clone, Debug, PartialEq, Eq, Structural)]
pub enum CartridgeCapability {
    ROM,
    MBC1,
    MBC2,
    MBC3,
    MBC5,
    RAM,
    Battery,
    Timer,
    Rumble,
}

} // verus!
