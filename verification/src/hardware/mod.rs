//! The hardware around the processor, as far as the processor's side of it
//! goes.
pub mod joypad;
