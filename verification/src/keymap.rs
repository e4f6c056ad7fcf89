//! From the keys of a keyboard to the buttons of the console.
use crate::hardware::joypad::{Button, Input, InputType};
use vstd::prelude::*;

verus! {

/// A key of the keyboard. Only the keys that stand for a button have a name
/// of their own.
#[derive(Copy, Clone, Debug, PartialEq, Eq, Structural)]
pub enum Key {
    ArrowUp,
    ArrowDown,
    ArrowLeft,
    ArrowRight,
    Enter,
    Space,
    KeyX,
    KeyZ,
    Other,
}

/// What the keyboard reports: a key, where the keyboard knows which, and
/// whether it went down or came up.
#[derive(Copy, Clone, Debug, PartialEq, Eq, Structural)]
pub struct KeyPress {
    pub key: Option<Key>,
    pub pressed: bool,
}

/// The button that a key stands for: the arrows for the directions, Enter
/// for Start, Space for Select, X for B and Z for A.
pub open spec fn button_of(key: Key) -> Option<Button> {
    match key {
        Key::ArrowUp => Some(Button::Up),
        Key::ArrowDown => Some(Button::Down),
        Key::ArrowLeft => Some(Button::Left),
        Key::ArrowRight => Some(Button::Right),
        Key::Enter => Some(Button::Start),
        Key::Space => Some(Button::Select),
        Key::KeyX => Some(Button::B),
        Key::KeyZ => Some(Button::A),
        Key::Other => None,
    }
}

/// The move that a key press stands for: none where the key is unknown or
/// stands for no button.
pub open spec fn input_of(input: KeyPress) -> Option<Input> {
    match input.key {
        Some(key) => match button_of(key) {
            Some(button) => Some(
                Input {
                    input_type: if input.pressed {
                        InputType::Down
                    } else {
                        InputType::Up
                    },
                    button,
                },
            ),
            None => None,
        },
        None => None,
    }
}

pub fn keymap(input: KeyPress) -> (r: Option<Input>)
    ensures
        r == input_of(input),
{
    let key_code = input.key?;
    let button = match key_code {
        Key::ArrowUp => Button::Up,
        Key::ArrowDown => Button::Down,
        Key::ArrowLeft => Button::Left,
        Key::ArrowRight => Button::Right,
        Key::Enter => Button::Start,
        Key::Space => Button::Select,
        Key::KeyX => Button::B,
        Key::KeyZ => Button::A,
        _ => {
            return None;
        },
    };

    let input_type = if input.pressed {
        InputType::Down
    } else {
        InputType::Up
    };

    Some(Input { input_type, button })
}

} // verus!
