//! What the processor offers a debugger: a frozen copy of its state to
//! disassemble from, and the hooks through which a debugger is called.
use crate::bus::Bus;
use crate::debugger::debug_info::DebugInfo;
use vstd::prelude::*;

pub mod commands;
pub mod debug_info;

verus! {

/// A debugger, as the processor calls it at the boundary between two
/// instructions. What a debugger does is its own business.
pub trait Debugger {
    /// Asked once per instruction: whether the debugger wants control.
    fn should_run(&self, debug_info: &DebugInfo) -> bool;

    /// Hands control to the debugger, with the frozen state and the live
    /// bus.
    fn run<B: Bus>(&mut self, debug_info: DebugInfo, bus: &mut B);
}

} // verus!
