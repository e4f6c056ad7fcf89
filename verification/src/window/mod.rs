//! What a window makes of the events that reach it.
use crate::hardware::joypad::Input;
use crate::keymap::{input_of, keymap, KeyPress};
use vstd::prelude::*;

verus! {

/// What is to become of a window after an update.
#[derive(Copy, Clone, Debug, PartialEq, Eq, Structural)]
pub enum UpdateResult {
    Continue,
    Close,
}

/// An event that reaches a window.
#[derive(Copy, Clone, Debug, PartialEq, Eq, Structural)]
pub enum WindowEvent {
    /// The window is asked to close.
    CloseRequested,
    /// A key went down or came up.
    KeyboardInput(KeyPress),
    /// Anything else.
    Other,
}

/// What the events of one update ask for: whether the window closes, and
/// the moves to hand to the console.
pub struct Update {
    pub result: UpdateResult,
    pub inputs: Vec<Input>,
}

/// The moves that the first `count` of `events` stand for, in their order.
pub open spec fn inputs_of(events: Seq<WindowEvent>, count: int) -> Seq<Input>
    decreases count,
{
    if count <= 0 {
        Seq::empty()
    } else {
        let before = inputs_of(events, count - 1);
        match events[count - 1] {
            WindowEvent::KeyboardInput(input) => match input_of(input) {
                Some(input) => before.push(input),
                None => before,
            },
            _ => before,
        }
    }
}

/// Whether one of the first `count` of `events` asks the window to close.
pub open spec fn close_requested(events: Seq<WindowEvent>, count: int) -> bool {
    exists|i: int| 0 <= i < count && events[i] == WindowEvent::CloseRequested
}

/// Goes through the events of one update: key presses become moves, and a
/// request to close closes the window once all events are seen.
pub fn handle_events(events: &[WindowEvent]) -> (r: Update)
    ensures
        r.inputs@ == inputs_of(events@, events@.len() as int),
        r.result == if close_requested(events@, events@.len() as int) {
            UpdateResult::Close
        } else {
            UpdateResult::Continue
        },
{
    let mut close: bool = false;
    let mut inputs: Vec<Input> = Vec::new();
    let mut i: usize = 0;
    while i < events.len()
        invariant
            i <= events@.len(),
            inputs@ == inputs_of(events@, i as int),
            close == close_requested(events@, i as int),
        decreases events.len() - i,
    {
        match events[i] {
            WindowEvent::CloseRequested => {
                close = true;
            },
            WindowEvent::KeyboardInput(input) => {
                if let Some(input) = keymap(input) {
                    inputs.push(input);
                }
            },
            WindowEvent::Other => {},
        }
        i = i + 1;
    }
    Update {
        result: if close {
            UpdateResult::Close
        } else {
            UpdateResult::Continue
        },
        inputs,
    }
}

} // verus!
