//! An instruction-accurate model of the Game Boy's processor and of the
//! register-level peripherals that sit on its bus.
//!
//! Every function carries a contract over plain mathematical values, and every
//! contract is machine-checked.
pub mod bus;
pub mod cartridge;
pub mod debugger;
pub mod hardware;
pub mod keymap;
pub mod processor;
pub mod sound;
pub mod util;
pub mod video;
pub mod window;
