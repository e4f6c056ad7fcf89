//! The command that sets, clears and lists breakpoints.
use crate::bus::Readable;
use crate::debugger::commands::{
    same_text, text_of, texts, without, Command, CommandResult, DebuggerState, Effect, Executed,
};
use crate::debugger::debug_info::DebugInfo;
use crate::util::parse_hex::{hex_text, hex_value, parse_hex, push_hex};
use vstd::prelude::*;
use vstd::string::StringExecFns;

verus! {

/// What a breakpoint command asks for.
#[derive(Copy, Clone, Debug, PartialEq, Eq, Structural)]
pub enum BreakpointAction {
    Add(u16),
    Remove(u16),
    List,
}

/// What the words behind the command's name ask for. `add`, or `a`, and
/// `remove`, or `r`, take an address in hexadecimal as the next word;
/// `list`, or `l`, takes nothing. Anything else asks for nothing.
pub open spec fn action_of(values: Seq<Seq<char>>) -> Option<BreakpointAction> {
    if values.len() == 0 {
        None
    } else if values[0] == "add"@ || values[0] == "a"@ {
        if values.len() >= 2 && hex_value(values[1]) is Some {
            Some(BreakpointAction::Add(hex_value(values[1])->0))
        } else {
            None
        }
    } else if values[0] == "remove"@ || values[0] == "r"@ {
        if values.len() >= 2 && hex_value(values[1]) is Some {
            Some(BreakpointAction::Remove(hex_value(values[1])->0))
        } else {
            None
        }
    } else if values[0] == "list"@ || values[0] == "l"@ {
        Some(BreakpointAction::List)
    } else {
        None
    }
}

impl BreakpointAction {
    pub fn parse(values: &[&str]) -> (r: Option<BreakpointAction>)
        ensures
            r == action_of(texts(values@)),
    {
        if values.len() == 0 {
            return None;
        }
        let action: &str = values[0];
        if same_text(action, "add") || same_text(action, "a") {
            if values.len() < 2 {
                return None;
            }
            match parse_hex(values[1]) {
                Some(line) => Some(BreakpointAction::Add(line)),
                None => None,
            }
        } else if same_text(action, "remove") || same_text(action, "r") {
            if values.len() < 2 {
                return None;
            }
            match parse_hex(values[1]) {
                Some(line) => Some(BreakpointAction::Remove(line)),
                None => None,
            }
        } else if same_text(action, "list") || same_text(action, "l") {
            Some(BreakpointAction::List)
        } else {
            None
        }
    }
}

/// The command `breakpoint`, or `b`.
pub struct BreakpointCommand {}

impl BreakpointCommand {
    /// The command, ready to be kept among the commands of the debugger:
    /// it answers to `breakpoint` and `b`, and sets, clears and lists
    /// breakpoints.
    pub fn create_command() -> (r: Box<dyn Command>)
        ensures
            r.words() == breakpoint_words(),
            forall|
                input: Seq<Seq<char>>,
                breakpoints: Seq<u16>,
                debug_info: &DebugInfo,
                memory: spec_fn(u16) -> u8,
            | #[trigger]
                r.effect(input, breakpoints, debug_info, memory) == breakpoint_effect(
                    input,
                    breakpoints,
                ),
    {
        // An explicit `return`: Verus takes no contract on a function whose
        // block itself is the boxed trait object.
        return Box::new(BreakpointCommand {  });
    }
}

/// The breakpoints after `action`.
pub open spec fn breakpoints_after(breakpoints: Seq<u16>, action: Option<BreakpointAction>) -> Seq<
    u16,
> {
    match action {
        Some(BreakpointAction::Add(line)) => if breakpoints.contains(line) {
            breakpoints
        } else {
            breakpoints.push(line)
        },
        Some(BreakpointAction::Remove(line)) => without(breakpoints, line),
        _ => breakpoints,
    }
}

/// What the command has to say after `action`: the list where it was asked
/// for, a word on how to use the command where the input asked for
/// nothing, and else nothing.
pub open spec fn output_after(breakpoints: Seq<u16>, action: Option<BreakpointAction>) -> Option<
    Seq<char>,
> {
    match action {
        Some(BreakpointAction::List) => Some(listed(breakpoints)),
        Some(_) => None,
        None => Some("Invalid input for breakpoint (add [line]| remove [line] | list)"@),
    }
}

/// The words that call the command.
pub open spec fn breakpoint_words() -> Seq<Seq<char>> {
    seq!["breakpoint"@, "b"@]
}

/// What the command leads to on the words of `input`, the first of which
/// is the word that called it: what the words behind it ask for is done,
/// what there is to say is shown, and the debugger goes on taking
/// commands.
pub open spec fn breakpoint_effect(input: Seq<Seq<char>>, breakpoints: Seq<u16>) -> Effect {
    let action = action_of(input.subrange(1, input.len() as int));
    Effect {
        breakpoints: breakpoints_after(breakpoints, action),
        result: CommandResult::Continue,
        output: output_after(breakpoints, action),
    }
}

impl Command for BreakpointCommand {
    open spec fn words(&self) -> Seq<Seq<char>> {
        breakpoint_words()
    }

    open spec fn effect(
        &self,
        input: Seq<Seq<char>>,
        breakpoints: Seq<u16>,
        debug_info: &DebugInfo,
        memory: spec_fn(u16) -> u8,
    ) -> Effect {
        breakpoint_effect(input, breakpoints)
    }

    fn matching_value(&self) -> (r: &[&str]) {
        let words: &[&str] = &["breakpoint", "b"];
        assert(texts(words@) =~= breakpoint_words());
        words
    }

    /// Does what the words behind the command's name ask for, and asks for
    /// more commands.
    fn execute(
        &self,
        input: &[&str],
        debugger: &mut DebuggerState,
        debug_info: &DebugInfo,
        bus: &dyn Readable,
    ) -> (r: Executed) {
        let values: &[&str] = vstd::slice::slice_subrange(input, 1, input.len());
        assert(texts(values@) == texts(input@).subrange(1, input@.len() as int));
        let output: Option<String> = if let Some(action) = BreakpointAction::parse(values) {
            match action {
                BreakpointAction::Add(line) => {
                    debugger.insert(line);
                    None
                },
                BreakpointAction::Remove(line) => {
                    debugger.remove(line);
                    None
                },
                BreakpointAction::List => Some(list_breakpoints(debugger)),
            }
        } else {
            Some(
                String::from_str("Invalid input for breakpoint (add [line]| remove [line] | list)"),
            )
        };
        Executed { result: CommandResult::Continue, output }
    }
}

/// The first `count` of `breakpoints`, each as `0x` and its address in
/// hexadecimal, with `, ` between them.
pub open spec fn joined(breakpoints: Seq<u16>, count: int) -> Seq<char>
    decreases count,
{
    if count <= 0 {
        Seq::empty()
    } else if count == 1 {
        "0x"@ + hex_text(breakpoints[0] as int)
    } else {
        joined(breakpoints, count - 1) + ", 0x"@ + hex_text(breakpoints[count - 1] as int)
    }
}

/// The list of breakpoints as text.
pub open spec fn listed(breakpoints: Seq<u16>) -> Seq<char> {
    if breakpoints.len() == 0 {
        "No breakpoints set"@
    } else {
        joined(breakpoints, breakpoints.len() as int)
    }
}

/// The list of breakpoints as text, in the order in which they were
/// added.
pub fn list_breakpoints(debugger: &DebuggerState) -> (r: String)
    ensures
        r@ == listed(debugger@),
{
    if debugger.is_empty() {
        String::from_str("No breakpoints set")
    } else {
        let breakpoints: &Vec<u16> = debugger.breakpoints();
        let mut text: String = String::new();
        let mut idx: usize = 0;
        while idx < breakpoints.len()
            invariant
                idx <= breakpoints@.len(),
                text@ == joined(breakpoints@, idx as int),
            decreases breakpoints.len() - idx,
        {
            if idx == 0 {
                text.append("0x");
                assert(text@ == "0x"@);
            } else {
                text.append(", 0x");
            }
            push_hex(&mut text, breakpoints[idx]);
            idx = idx + 1;
        }
        text
    }
}

} // verus!
