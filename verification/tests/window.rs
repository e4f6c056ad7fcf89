use rustyboy::hardware::joypad::{Button, Input, InputType};
use rustyboy::keymap::{keymap, Key, KeyPress};
use rustyboy::window::{handle_events, UpdateResult, WindowEvent};

fn press(key: Key) -> KeyPress {
    KeyPress { key: Some(key), pressed: true }
}

#[test]
fn keys_stand_for_buttons() {
    let expected = [
        (Key::ArrowUp, Button::Up),
        (Key::ArrowDown, Button::Down),
        (Key::ArrowLeft, Button::Left),
        (Key::ArrowRight, Button::Right),
        (Key::Enter, Button::Start),
        (Key::Space, Button::Select),
        (Key::KeyX, Button::B),
        (Key::KeyZ, Button::A),
    ];
    for (key, button) in expected {
        assert_eq!(keymap(press(key)), Some(Input { input_type: InputType::Down, button }));
        assert_eq!(
            keymap(KeyPress { key: Some(key), pressed: false }),
            Some(Input { input_type: InputType::Up, button })
        );
    }
}

#[test]
fn other_keys_stand_for_nothing() {
    assert_eq!(keymap(press(Key::Other)), None);
    assert_eq!(keymap(KeyPress { key: None, pressed: true }), None);
    assert_eq!(keymap(KeyPress { key: None, pressed: false }), None);
}

#[test]
fn events_become_moves_in_order() {
    let update = handle_events(&[
        WindowEvent::Other,
        WindowEvent::KeyboardInput(press(Key::KeyZ)),
        WindowEvent::KeyboardInput(press(Key::Other)),
        WindowEvent::KeyboardInput(KeyPress { key: Some(Key::Enter), pressed: false }),
    ]);
    assert_eq!(update.result, UpdateResult::Continue);
    assert_eq!(
        update.inputs,
        vec![
            Input { input_type: InputType::Down, button: Button::A },
            Input { input_type: InputType::Up, button: Button::Start },
        ]
    );
}

#[test]
fn a_request_to_close_closes_after_all_events() {
    let update = handle_events(&[
        WindowEvent::CloseRequested,
        WindowEvent::KeyboardInput(press(Key::Space)),
    ]);
    assert_eq!(update.result, UpdateResult::Close);
    assert_eq!(update.inputs, vec![Input { input_type: InputType::Down, button: Button::Select }]);
    let update = handle_events(&[]);
    assert_eq!(update.result, UpdateResult::Continue);
    assert!(update.inputs.is_empty());
}
