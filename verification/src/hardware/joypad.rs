//! The buttons of the console, and what a player does to them.
use vstd::prelude::*;

verus! {

/// A button of the console.
#[derive(Copy, Clone, Debug, PartialEq, Eq, Structural)]
pub enum Button {
    Up,
    Down,
    Left,
    Right,
    Start,
    Select,
    A,
    B,
}

/// What happens to a button.
#[derive(Copy, Clone, Debug, PartialEq, Eq, Structural)]
pub enum InputType {
    /// The button goes down.
    Down,
    /// The button comes up.
    Up,
}

/// One move of a player: a button goes down, or comes up.
#[derive(Copy, Clone, Debug, PartialEq, Eq, Structural)]
pub struct Input {
    pub input_type: InputType,
    pub button: Button,
}

} // verus!
