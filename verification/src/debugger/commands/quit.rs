//! The command that ends the program.
use crate::bus::Readable;
use crate::debugger::commands::{
    texts, Command, CommandResult, DebuggerState, Effect, Executed,
};
use crate::debugger::debug_info::DebugInfo;
use vstd::prelude::*;

verus! {

/// The command `quit`, or `q`.
pub struct QuitCommand {}

/// The words that call the command.
pub open spec fn quit_words() -> Seq<Seq<char>> {
    seq!["quit"@, "q"@]
}

/// What the command leads to: the program is to end, nothing is shown, and
/// the breakpoints stay as they are.
pub open spec fn quit_effect(breakpoints: Seq<u16>) -> Effect {
    Effect { breakpoints, result: CommandResult::Quit, output: None }
}

impl QuitCommand {
    /// The command, ready to be kept among the commands of the debugger:
    /// it answers to `quit` and `q`, and asks for the program to end.
    pub fn create_command() -> (r: Box<dyn Command>)
        ensures
            r.words() == quit_words(),
            forall|
                input: Seq<Seq<char>>,
                breakpoints: Seq<u16>,
                debug_info: &DebugInfo,
                memory: spec_fn(u16) -> u8,
            | #[trigger]
                r.effect(input, breakpoints, debug_info, memory) == quit_effect(breakpoints),
    {
        // An explicit `return`: Verus takes no contract on a function whose
        // block itself is the boxed trait object.
        return Box::new(QuitCommand {  });
    }
}

impl Command for QuitCommand {
    open spec fn words(&self) -> Seq<Seq<char>> {
        quit_words()
    }

    open spec fn effect(
        &self,
        input: Seq<Seq<char>>,
        breakpoints: Seq<u16>,
        debug_info: &DebugInfo,
        memory: spec_fn(u16) -> u8,
    ) -> Effect {
        quit_effect(breakpoints)
    }

    fn matching_value(&self) -> (r: &[&str]) {
        let words: &[&str] = &["quit", "q"];
        assert(texts(words@) =~= quit_words());
        words
    }

    /// Asks for the program to end, whatever the input, and changes
    /// nothing.
    fn execute(
        &self,
        input: &[&str],
        debugger: &mut DebuggerState,
        debug_info: &DebugInfo,
        bus: &dyn Readable,
    ) -> (r: Executed) {
        Executed { result: CommandResult::Quit, output: None }
    }
}

} // verus!
