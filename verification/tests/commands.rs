use rustyboy::bus::Readable;
use rustyboy::debugger::commands::breakpoint::{
    list_breakpoints, BreakpointAction, BreakpointCommand,
};
use rustyboy::debugger::commands::quit::QuitCommand;
use rustyboy::debugger::commands::{same_text, CommandResult, DebuggerState};
use rustyboy::debugger::debug_info::{DebugInfo, ProcessorDebugInfo};
use rustyboy::processor::registers::Registers;
use rustyboy::util::bits::{get_bit, set_bit};
use rustyboy::util::parse_hex::{parse_hex, push_hex};

struct Nothing {}

impl Readable for Nothing {
    fn byte_at(&self, _address: u16) -> u8 {
        0xFF
    }

    fn read(&self, _address: u16) -> u8 {
        0xFF
    }
}

fn empty_snapshot() -> DebugInfo {
    DebugInfo { cpu_debug_info: ProcessorDebugInfo { registers: Registers::new() }, bus: vec![] }
}

#[test]
fn hexadecimal_numbers_are_read() {
    assert_eq!(parse_hex("0"), Some(0));
    assert_eq!(parse_hex("100"), Some(0x100));
    assert_eq!(parse_hex("0x100"), Some(0x100));
    assert_eq!(parse_hex("ffff"), Some(0xFFFF));
    assert_eq!(parse_hex("FFFF"), Some(0xFFFF));
    assert_eq!(parse_hex("0xAbCd"), Some(0xABCD));
    assert_eq!(parse_hex("0000001"), Some(1));
}

#[test]
fn what_is_no_hexadecimal_number_is_refused() {
    assert_eq!(parse_hex(""), None);
    assert_eq!(parse_hex("0x"), None);
    assert_eq!(parse_hex("x"), None);
    assert_eq!(parse_hex("12g"), None);
    assert_eq!(parse_hex("10000"), None);
    assert_eq!(parse_hex("0x10000"), None);
    assert_eq!(parse_hex("-1"), None);
    assert_eq!(parse_hex(" 1"), None);
    assert_eq!(parse_hex("0X10"), None);
    assert_eq!(parse_hex("é"), None);
}

#[test]
fn hexadecimal_numbers_are_written_without_leading_zeros() {
    let text = |value: u16| {
        let mut text = String::from("$");
        push_hex(&mut text, value);
        text
    };
    assert_eq!(text(0), "$0");
    assert_eq!(text(0xF), "$F");
    assert_eq!(text(0x10), "$10");
    assert_eq!(text(0x0ABC), "$ABC");
    assert_eq!(text(0xFFFF), "$FFFF");
    assert_eq!(text(0x1002), "$1002");
}

#[test]
fn breakpoint_actions_are_parsed() {
    assert_eq!(BreakpointAction::parse(&["add", "100"]), Some(BreakpointAction::Add(0x100)));
    assert_eq!(BreakpointAction::parse(&["a", "0x1F"]), Some(BreakpointAction::Add(0x1F)));
    assert_eq!(BreakpointAction::parse(&["remove", "2"]), Some(BreakpointAction::Remove(2)));
    assert_eq!(BreakpointAction::parse(&["r", "ffff"]), Some(BreakpointAction::Remove(0xFFFF)));
    assert_eq!(BreakpointAction::parse(&["list"]), Some(BreakpointAction::List));
    assert_eq!(BreakpointAction::parse(&["l", "ignored"]), Some(BreakpointAction::List));
    assert_eq!(BreakpointAction::parse(&[]), None);
    assert_eq!(BreakpointAction::parse(&["add"]), None);
    assert_eq!(BreakpointAction::parse(&["add", "zz"]), None);
    assert_eq!(BreakpointAction::parse(&["remove"]), None);
    assert_eq!(BreakpointAction::parse(&["ADD", "1"]), None);
    assert_eq!(BreakpointAction::parse(&["delete", "1"]), None);
}

#[test]
fn breakpoints_are_kept_once_and_in_order() {
    let mut state = DebuggerState::new();
    assert!(state.is_empty());
    assert!(state.insert(0x200));
    assert!(state.insert(0x100));
    assert!(!state.insert(0x200));
    assert_eq!(state.breakpoints(), &vec![0x200, 0x100]);
    assert!(state.contains(0x100));
    assert!(!state.contains(0x300));
    assert!(!state.remove(0x300));
    assert!(state.remove(0x200));
    assert_eq!(state.breakpoints(), &vec![0x100]);
    assert!(!state.is_empty());
}

#[test]
fn breakpoints_are_listed() {
    let mut state = DebuggerState::new();
    assert_eq!(list_breakpoints(&state), "No breakpoints set");
    state.insert(0x100);
    assert_eq!(list_breakpoints(&state), "0x100");
    state.insert(0xABCD);
    state.insert(0);
    assert_eq!(list_breakpoints(&state), "0x100, 0xABCD, 0x0");
}

#[test]
fn the_breakpoint_command_runs() {
    let command = BreakpointCommand::create_command();
    assert_eq!(command.matching_value(), ["breakpoint", "b"]);
    let mut state = DebuggerState::new();
    let debug_info = empty_snapshot();
    let bus = Nothing {};
    let executed = command.execute(&["b", "add", "150"], &mut state, &debug_info, &bus);
    assert_eq!(executed.result, CommandResult::Continue);
    assert_eq!(executed.output, None);
    assert_eq!(state.breakpoints(), &vec![0x150]);
    command.execute(&["breakpoint", "a", "0x200"], &mut state, &debug_info, &bus);
    let executed = command.execute(&["b", "list"], &mut state, &debug_info, &bus);
    assert_eq!(executed.output, Some(String::from("0x150, 0x200")));
    command.execute(&["b", "remove", "150"], &mut state, &debug_info, &bus);
    assert_eq!(state.breakpoints(), &vec![0x200]);
    for input in [vec!["b"], vec!["b", "add"], vec!["b", "what"], vec!["b", "r", "-"]] {
        let executed = command.execute(&input, &mut state, &debug_info, &bus);
        assert_eq!(executed.result, CommandResult::Continue);
        assert_eq!(
            executed.output,
            Some(String::from("Invalid input for breakpoint (add [line]| remove [line] | list)"))
        );
        assert_eq!(state.breakpoints(), &vec![0x200]);
    }
}

#[test]
fn the_quit_command_asks_to_quit() {
    let command = QuitCommand::create_command();
    assert_eq!(command.matching_value(), ["quit", "q"]);
    let mut state = DebuggerState::new();
    state.insert(1);
    let executed = command.execute(&["q"], &mut state, &empty_snapshot(), &Nothing {});
    assert_eq!(executed.result, CommandResult::Quit);
    assert_eq!(executed.output, None);
    assert_eq!(state.breakpoints(), &vec![1]);
}

#[test]
fn texts_are_compared_by_their_characters() {
    assert!(same_text("add", "add"));
    assert!(!same_text("add", "ad"));
    assert!(!same_text("add", "adx"));
    assert!(same_text("", ""));
    assert!(same_text("é1", "é1"));
}

#[test]
fn bits_of_a_byte() {
    assert!(get_bit(0b0100_0000, 6));
    assert!(!get_bit(0b0100_0000, 7));
    assert!(!get_bit(0xFF, 8));
    assert_eq!(set_bit(0, 7, true), 0x80);
    assert_eq!(set_bit(0xFF, 0, false), 0xFE);
    assert_eq!(set_bit(0x12, 15, true), 0x12);
    assert_eq!(set_bit(0x12, 8, false), 0x12);
    for idx in 0..8u8 {
        for bit in [false, true] {
            assert_eq!(get_bit(set_bit(0xA5, idx, bit), idx), bit);
        }
    }
}
