//! The picture unit: its memory and registers, and the picture that they
//! make.
use crate::video::control_register::ControlRegister;
use crate::video::memory::VideoMemory;
use vstd::prelude::*;

pub mod color;
pub mod control_register;
pub mod memory;
pub mod screen;
pub mod tile;

verus! {

/// The state of the picture unit.
pub struct Video {
    pub control: ControlRegister,
    pub vram: VideoMemory,
    /// How far the screen is moved to the right and down over the
    /// background.
    pub scroll: (u8, u8),
    /// Where the window is: its left edge, plus 7, and its top edge.
    pub window: (u8, u8),
}

} // verus!
