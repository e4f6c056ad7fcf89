//! The commands of the interactive debugger.
//!
//! A command decides and computes; it does not print and does not end the
//! process. What it has to say comes back as text, and what it wants done
//! as a `CommandResult`, for the caller to act on.
use crate::bus::Readable;
use crate::debugger::debug_info::DebugInfo;
use vstd::prelude::*;

pub mod breakpoint;
pub mod quit;

verus! {

/// What the debugger is to do once a command has run.
#[derive(Copy, Clone, Debug, PartialEq, Eq, Structural)]
pub enum CommandResult {
    /// Go on taking commands.
    Continue,
    /// End the program.
    Quit,
}

/// What running a command led to: what to do next, and the text to show,
/// if any.
pub struct Executed {
    pub result: CommandResult,
    pub output: Option<String>,
}

/// What the debugger remembers between commands: the addresses at which
/// execution is to stop, in the order in which they were added, none of
/// them twice.
pub struct DebuggerState {
    breakpoints: Vec<u16>,
}

impl View for DebuggerState {
    type V = Seq<u16>;

    /// The breakpoints, in the order in which they were added.
    closed spec fn view(&self) -> Seq<u16> {
        self.breakpoints@
    }
}

impl DebuggerState {
    #[verifier::type_invariant]
    spec fn nothing_twice(&self) -> bool {
        self.breakpoints@.no_duplicates()
    }

    /// A state without breakpoints.
    pub fn new() -> (r: DebuggerState)
        ensures
            r@ == Seq::<u16>::empty(),
    {
        DebuggerState { breakpoints: Vec::new() }
    }

    /// The breakpoints, in the order in which they were added; none is
    /// there twice.
    pub fn breakpoints(&self) -> (r: &Vec<u16>)
        ensures
            r@ == self@,
            r@.no_duplicates(),
    {
        proof {
            use_type_invariant(self);
        }
        &self.breakpoints
    }

    pub fn is_empty(&self) -> (r: bool)
        ensures
            r == (self@.len() == 0),
    {
        self.breakpoints.len() == 0
    }

    /// Where `line` is among the breakpoints, if it is.
    fn position(&self, line: u16) -> (r: Option<usize>)
        ensures
            r matches Some(index) ==> index < self@.len() && self@[index as int] == line,
            r is None ==> !self@.contains(line),
    {
        let mut i: usize = 0;
        while i < self.breakpoints.len()
            invariant
                i <= self.breakpoints@.len(),
                forall|j: int| 0 <= j < i ==> self.breakpoints@[j] != line,
            decreases self.breakpoints.len() - i,
        {
            if self.breakpoints[i] == line {
                return Some(i);
            }
            i = i + 1;
        }
        None
    }

    pub fn contains(&self, line: u16) -> (r: bool)
        ensures
            r == self@.contains(line),
    {
        self.position(line).is_some()
    }

    /// Adds `line` to the breakpoints, behind the others, unless it is
    /// among them already. Returns whether it was added.
    pub fn insert(&mut self, line: u16) -> (r: bool)
        ensures
            r == !old(self)@.contains(line),
            final(self)@ == if r {
                old(self)@.push(line)
            } else {
                old(self)@
            },
    {
        proof {
            use_type_invariant(&*self);
        }
        if self.position(line).is_some() {
            false
        } else {
            let mut breakpoints: Vec<u16> = Vec::new();
            std::mem::swap(&mut breakpoints, &mut self.breakpoints);
            breakpoints.push(line);
            assert(breakpoints@.no_duplicates()) by {
                assert forall|i: int, j: int|
                    0 <= i < breakpoints@.len() && 0 <= j < breakpoints@.len() && i
                        != j implies breakpoints@[i] != breakpoints@[j] by {
                    if i < old(self)@.len() && j < old(self)@.len() {
                        assert(old(self)@[i] != old(self)@[j]);
                    } else if i < old(self)@.len() {
                        assert(old(self)@.contains(old(self)@[i]));
                    } else {
                        assert(old(self)@.contains(old(self)@[j]));
                    }
                }
            }
            self.breakpoints = breakpoints;
            true
        }
    }

    /// Takes `line` from the breakpoints and leaves the others in their
    /// order. Returns whether it was among them.
    pub fn remove(&mut self, line: u16) -> (r: bool)
        ensures
            r == old(self)@.contains(line),
            final(self)@ == without(old(self)@, line),
    {
        proof {
            use_type_invariant(&*self);
        }
        match self.position(line) {
            Some(index) => {
                let mut breakpoints: Vec<u16> = Vec::new();
                std::mem::swap(&mut breakpoints, &mut self.breakpoints);
                breakpoints.remove(index);
                proof {
                    lemma_without_present(old(self)@, index as int);
                    let removed = old(self)@.remove(index as int);
                    assert forall|i: int, j: int|
                        0 <= i < removed.len() && 0 <= j < removed.len() && i
                            != j implies removed[i] != removed[j] by {
                        let from = |k: int|
                            if k < index {
                                k
                            } else {
                                k + 1
                            };
                        assert(removed[i] == old(self)@[from(i)]);
                        assert(removed[j] == old(self)@[from(j)]);
                    }
                }
                self.breakpoints = breakpoints;
                true
            },
            None => {
                proof {
                    lemma_without_absent(old(self)@, line);
                }
                false
            },
        }
    }
}

/// `lines` without `line`, the others in their order.
pub open spec fn without(lines: Seq<u16>, line: u16) -> Seq<u16>
    decreases lines.len(),
{
    if lines.len() == 0 {
        lines
    } else if lines.last() == line {
        without(lines.drop_last(), line)
    } else {
        without(lines.drop_last(), line).push(lines.last())
    }
}

/// Taking out a value that does not occur changes nothing.
pub proof fn lemma_without_absent(lines: Seq<u16>, line: u16)
    requires
        !lines.contains(line),
    ensures
        without(lines, line) == lines,
    decreases lines.len(),
{
    if lines.len() > 0 {
        assert(!lines.drop_last().contains(line)) by {
            if lines.drop_last().contains(line) {
                let i = choose|i: int|
                    0 <= i < lines.drop_last().len() && lines.drop_last()[i] == line;
                assert(lines[i] == line);
            }
        }
        lemma_without_absent(lines.drop_last(), line);
        assert(lines.last() != line) by {
            if lines.last() == line {
                assert(lines[lines.len() - 1] == line);
            }
        }
        assert(lines.drop_last().push(lines.last()) == lines);
    }
}

/// Where nothing occurs twice, taking out a value is removing it at the one
/// place where it is.
pub proof fn lemma_without_present(lines: Seq<u16>, index: int)
    requires
        lines.no_duplicates(),
        0 <= index < lines.len(),
    ensures
        without(lines, lines[index]) == lines.remove(index),
    decreases lines.len(),
{
    let line = lines[index];
    if index == lines.len() - 1 {
        assert(lines.remove(index) == lines.drop_last());
        assert(!lines.drop_last().contains(line)) by {
            if lines.drop_last().contains(line) {
                let i = choose|i: int|
                    0 <= i < lines.drop_last().len() && lines.drop_last()[i] == line;
                assert(lines[i] == lines[index]);
            }
        }
        lemma_without_absent(lines.drop_last(), line);
    } else {
        assert(lines.drop_last().no_duplicates());
        lemma_without_present(lines.drop_last(), index);
        assert(lines.drop_last()[index] == line);
        assert(lines.remove(index) == lines.drop_last().remove(index).push(lines.last()));
        assert(lines.last() != line);
    }
}

/// The characters of each of the words.
pub open spec fn texts(values: Seq<&str>) -> Seq<Seq<char>> {
    values.map_values(|value: &str| value@)
}

/// The view of an optional text.
pub open spec fn text_of(text: Option<String>) -> Option<Seq<char>> {
    match text {
        Some(text) => Some(text@),
        None => None,
    }
}

/// What running a command leads to, as plain values: the breakpoints
/// afterwards, what the debugger is to do next, and the text to show, if
/// any.
pub struct Effect {
    pub breakpoints: Seq<u16>,
    pub result: CommandResult,
    pub output: Option<Seq<char>>,
}

/// A command of the debugger.
pub trait Command {
    /// The words, any of which calls the command.
    spec fn words(&self) -> Seq<Seq<char>>;

    /// What running the command on the words of `input` leads to, the
    /// breakpoints being `breakpoints` before and `memory` being the byte
    /// that the bus yields at each address.
    spec fn effect(
        &self,
        input: Seq<Seq<char>>,
        breakpoints: Seq<u16>,
        debug_info: &DebugInfo,
        memory: spec_fn(u16) -> u8,
    ) -> Effect;

    /// The words, any of which calls the command.
    fn matching_value(&self) -> (r: &[&str])
        ensures
            texts(r@) == self.words(),
    ;

    /// Runs the command on a line of input that is split into words, the
    /// first of which is the word that called the command.
    fn execute(
        &self,
        input: &[&str],
        debugger: &mut DebuggerState,
        debug_info: &DebugInfo,
        bus: &dyn Readable,
    ) -> (r: Executed)
        requires
            input@.len() >= 1,
        ensures
            final(debugger)@ == self.effect(
                texts(input@),
                old(debugger)@,
                debug_info,
                |address: u16| bus.byte_at(address),
            ).breakpoints,
            r.result == self.effect(
                texts(input@),
                old(debugger)@,
                debug_info,
                |address: u16| bus.byte_at(address),
            ).result,
            text_of(r.output) == self.effect(
                texts(input@),
                old(debugger)@,
                debug_info,
                |address: u16| bus.byte_at(address),
            ).output,
    ;
}

/// Whether two strings hold the same characters.
pub fn same_text(first: &str, second: &str) -> (r: bool)
    ensures
        r == (first@ == second@),
{
    let length: usize = first.unicode_len();
    if second.unicode_len() != length {
        return false;
    }
    let mut i: usize = 0;
    while i < length
        invariant
            i <= length,
            length == first@.len(),
            length == second@.len(),
            forall|j: int| 0 <= j < i ==> first@[j] == second@[j],
        decreases length - i,
    {
        if first.get_char(i) != second.get_char(i) {
            return false;
        }
        i = i + 1;
    }
    assert(first@ =~= second@);
    true
}

} // verus!
