use rustyboy::bus::Readable;
use rustyboy::debugger::debug_info::{
    DebugInfo, DebugOperandParser, ParsedOperand, ProcessorDebugInfo, ReadableVec,
};
use rustyboy::processor::flag_register::Flag;
use rustyboy::processor::instruction::{
    AddressType, Mnemonic, Operand, Reference, ValueType,
};
use rustyboy::processor::operand_parser::OperandParser;
use rustyboy::processor::program_counter::ProgramCounter;
use rustyboy::processor::register::Register;
use rustyboy::processor::registers::{RegisterType, Registers};

struct Rom {
    bytes: Vec<u8>,
}

impl Readable for Rom {
    fn byte_at(&self, address: u16) -> u8 {
        self.bytes[address as usize]
    }

    fn read(&self, address: u16) -> u8 {
        self.bytes[address as usize]
    }
}

fn snapshot(bytes: Vec<u8>) -> DebugInfo {
    DebugInfo { cpu_debug_info: ProcessorDebugInfo { registers: Registers::new() }, bus: bytes }
}

fn snapshot_at(address: usize, program: &[u8]) -> DebugInfo {
    let mut bytes = vec![0u8; 0x10000];
    bytes[address..address + program.len()].copy_from_slice(program);
    snapshot(bytes)
}

#[test]
fn nop_at_entry_address_parses_without_operands() {
    let mut bytes = vec![0xFFu8; 0x10000];
    bytes[0x100] = 0x00;
    let debug_info = snapshot(bytes);
    let parsed = debug_info.parse_instruction(0x100).unwrap();
    assert_eq!(parsed.line, 0x100);
    assert_eq!(*parsed.instruction.mnemonic(), Mnemonic::NOP);
    assert!(parsed.parsed_operands.is_empty());
    assert_eq!(debug_info.cpu_debug_info.registers.reg(RegisterType::AF), 0x01B0);
    assert_eq!(debug_info.cpu_debug_info.registers.reg(RegisterType::BC), 0x0013);
    assert_eq!(debug_info.cpu_debug_info.registers.reg(RegisterType::PC), 0x0100);
    assert_eq!(debug_info.current_line(), 0x100);
}

#[test]
fn fetch_reads_then_advances() {
    let rom = Rom { bytes: vec![7u8; 0x10000] };
    let mut counter = ProgramCounter::new();
    assert_eq!(counter.get(), 0x100);
    assert_eq!(counter.fetch(&rom), 7);
    assert_eq!(counter.get(), 0x101);
    counter.set(0xFFFF);
    counter.fetch(&rom);
    assert_eq!(counter.get(), 0x0000);
    counter.decrement();
    assert_eq!(counter.get(), 0xFFFF);
    counter.increment();
    assert_eq!(counter.get(), 0x0000);
}

#[test]
fn word_immediate_is_little_endian_and_two_bytes_long() {
    let debug_info = snapshot_at(0x200, &[0x01, 0x34, 0x12]);
    let bus = ReadableVec { value: &debug_info.bus };
    let mut parser = DebugOperandParser::new(0x201, &debug_info);
    assert_eq!(parser.operand_value(&bus, ValueType::Immediate16), 0x1234);
    assert_eq!(parser.mut_program_counter().get(), 0x203);

    let mut parser = DebugOperandParser::new(0x200, &debug_info);
    let parsed = debug_info.parse_instruction_with_parser(&mut parser).unwrap();
    assert_eq!(*parsed.instruction.mnemonic(), Mnemonic::LD);
    assert_eq!(
        parsed.parsed_operands,
        vec![
            ParsedOperand::Reference(Reference::Register(RegisterType::BC)),
            ParsedOperand::Value((ValueType::Immediate16, 0x1234)),
        ]
    );
    assert_eq!(parser.mut_program_counter().get(), 0x203);
}

#[test]
fn value_forms_resolve_against_the_snapshot() {
    let mut bytes = vec![0u8; 0x10000];
    bytes[0x300] = 0x85;
    bytes[0x301] = 0x40;
    bytes[0x014D] = 0x77;
    bytes[0xFF13] = 0x55;
    bytes[0xFF85] = 0x66;
    bytes[0x4085] = 0x44;
    let debug_info = snapshot(bytes);
    let bus = ReadableVec { value: &debug_info.bus };
    let value = |form: ValueType| {
        let mut parser = DebugOperandParser::new(0x300, &debug_info);
        let number = parser.operand_value(&bus, form);
        (number, parser.mut_program_counter().get())
    };
    assert_eq!(value(ValueType::Register(RegisterType::HL)), (0x014D, 0x300));
    assert_eq!(value(ValueType::Register(RegisterType::C)), (0x13, 0x300));
    assert_eq!(value(ValueType::Immediate), (0x85, 0x301));
    assert_eq!(value(ValueType::SignedImmediate), (0xFF85, 0x301));
    assert_eq!(value(ValueType::Immediate16), (0x4085, 0x302));
    assert_eq!(value(ValueType::Constant(0x38)), (0x38, 0x300));
    assert_eq!(value(ValueType::Address(AddressType::Register(RegisterType::HL))), (0x77, 0x300));
    assert_eq!(value(ValueType::Address(AddressType::IncRegister(RegisterType::C))), (0x55, 0x300));
    assert_eq!(value(ValueType::Address(AddressType::IncImmediate)), (0x66, 0x301));
    assert_eq!(value(ValueType::Address(AddressType::Immediate)), (0x44, 0x302));
    let mut parser = DebugOperandParser::new(0x301, &debug_info);
    assert_eq!(parser.operand_value(&bus, ValueType::SignedImmediate), 0x0040);
    let mut parser = DebugOperandParser::new(0x300, &debug_info);
    assert_eq!(parser.operand_address(&bus, AddressType::IncImmediate), 0xFF85);
    assert_eq!(parser.operand_address(&bus, AddressType::Register(RegisterType::DE)), 0x00D8);
}

#[test]
fn conditions_read_the_flags_of_the_snapshot() {
    let debug_info = snapshot(vec![0u8; 0x10000]);
    let parser = DebugOperandParser::new(0, &debug_info);
    assert!(parser.operand_condition((Flag::Zero, true)));
    assert!(!parser.operand_condition((Flag::Zero, false)));
    assert!(parser.operand_condition((Flag::AddSub, false)));
    assert!(parser.operand_condition((Flag::Carry, true)));
    assert!(parser.flag(Flag::HalfCarry));
    assert_eq!(parser.reg(RegisterType::SP), 0xFFFE);
}

#[test]
fn conditional_jump_is_parsed_with_its_condition() {
    let debug_info = snapshot_at(0x150, &[0x20, 0xFB]);
    let parsed = debug_info.parse_instruction(0x150).unwrap();
    assert_eq!(*parsed.instruction.mnemonic(), Mnemonic::JR);
    assert_eq!(
        parsed.parsed_operands,
        vec![
            ParsedOperand::Condition(((Flag::Zero, false), false)),
            ParsedOperand::Value((ValueType::SignedImmediate, 0xFFFB)),
        ]
    );
}

#[test]
fn prefixed_instruction_takes_two_opcode_bytes() {
    let debug_info = snapshot_at(0x150, &[0xCB, 0x7C]);
    let mut parser = DebugOperandParser::new(0x150, &debug_info);
    let parsed = debug_info.parse_instruction_with_parser(&mut parser).unwrap();
    assert_eq!(parsed.line, 0x150);
    assert_eq!(*parsed.instruction.mnemonic(), Mnemonic::BIT);
    assert_eq!(
        parsed.parsed_operands,
        vec![
            ParsedOperand::Value((ValueType::Constant(7), 7)),
            ParsedOperand::Value((ValueType::Register(RegisterType::H), 0x01)),
        ]
    );
    assert_eq!(parser.mut_program_counter().get(), 0x152);
}

#[test]
fn places_are_passed_through_without_fetching() {
    let debug_info = snapshot_at(0x150, &[0xEA, 0x00, 0xC0]);
    let mut parser = DebugOperandParser::new(0x150, &debug_info);
    let parsed = debug_info.parse_instruction_with_parser(&mut parser).unwrap();
    assert_eq!(
        parsed.parsed_operands,
        vec![
            ParsedOperand::Reference(Reference::Address(AddressType::Immediate)),
            ParsedOperand::Value((ValueType::Register(RegisterType::A), 0x01)),
        ]
    );
    assert_eq!(parser.mut_program_counter().get(), 0x151);
    let bus = ReadableVec { value: &debug_info.bus };
    let mut parser = DebugOperandParser::new(0x151, &debug_info);
    assert_eq!(
        DebugInfo::parse_operand(
            &bus,
            &mut parser,
            Operand::Reference(Reference::Register(RegisterType::A))
        ),
        ParsedOperand::Reference(Reference::Register(RegisterType::A))
    );
    assert_eq!(parser.mut_program_counter().get(), 0x151);
}

#[test]
fn illegal_opcode_parses_to_nothing() {
    let debug_info = snapshot_at(0x150, &[0xD3]);
    assert!(debug_info.parse_instruction(0x150).is_none());
    let mut parser = DebugOperandParser::new(0x150, &debug_info);
    assert!(debug_info.parse_instruction_with_parser(&mut parser).is_none());
    assert_eq!(parser.mut_program_counter().get(), 0x151);
}

#[test]
fn a_short_snapshot_reads_as_fill() {
    let debug_info = snapshot(vec![0x00, 0x3E]);
    let bus = ReadableVec { value: &debug_info.bus };
    assert_eq!(bus.read(0), 0x00);
    assert_eq!(bus.read(1), 0x3E);
    assert_eq!(bus.read(2), 0xFF);
    assert_eq!(bus.read(0xFFFF), 0xFF);
    let parsed = debug_info.parse_instruction(1).unwrap();
    assert_eq!(
        parsed.parsed_operands,
        vec![
            ParsedOperand::Reference(Reference::Register(RegisterType::A)),
            ParsedOperand::Value((ValueType::Immediate, 0xFF)),
        ]
    );
    let rst = debug_info.parse_instruction(0x8000).unwrap();
    assert_eq!(*rst.instruction.mnemonic(), Mnemonic::RST);
}

#[test]
fn parse_all_of_single_byte_instructions_lists_every_address() {
    let debug_info = snapshot(vec![0u8; 0x10000]);
    let lines = debug_info.parse_all(0x100);
    assert_eq!(lines.len(), 0x10000);
    assert_eq!(lines[0].line, 0x100);
    assert_eq!(lines[1].line, 0x101);
    assert_eq!(lines[0xFEFF].line, 0xFFFF);
    assert_eq!(lines[0xFF00].line, 0x0000);
    assert_eq!(lines[0xFFFF].line, 0x00FF);
}

#[test]
fn parse_all_passes_over_illegal_opcodes() {
    let mut bytes = vec![0u8; 0x10000];
    bytes[0x10] = 0xD3;
    bytes[0x20] = 0xFD;
    let debug_info = snapshot(bytes);
    let lines = debug_info.parse_all(0);
    assert_eq!(lines.len(), 0x10000 - 2);
    assert_eq!(lines[0x0F].line, 0x0F);
    assert_eq!(lines[0x10].line, 0x11);
}

#[test]
fn parse_all_stops_after_one_pass_when_it_does_not_realign() {
    let mut bytes = vec![0u8; 0x10000];
    bytes[0xFFFF] = 0x01;
    let debug_info = snapshot(bytes);
    let lines = debug_info.parse_all(1);
    assert_eq!(lines.len(), 0xFFFF);
    assert_eq!(lines[0].line, 1);
    let last = &lines[lines.len() - 1];
    assert_eq!(last.line, 0xFFFF);
    assert_eq!(*last.instruction.mnemonic(), Mnemonic::LD);
    assert_eq!(
        last.parsed_operands[1],
        ParsedOperand::Value((ValueType::Immediate16, 0x0000))
    );
}

#[test]
fn parse_all_counts_the_bytes_of_longer_instructions() {
    let mut bytes = vec![0u8; 0x10000];
    for chunk in bytes.chunks_mut(4) {
        chunk[0] = 0xC3;
        chunk[3] = 0x00;
    }
    let debug_info = snapshot(bytes);
    let lines = debug_info.parse_all(0);
    assert_eq!(lines.len(), 0x8000);
    assert_eq!(lines[0].line, 0);
    assert_eq!(*lines[0].instruction.mnemonic(), Mnemonic::JP);
    assert_eq!(lines[1].line, 3);
    assert_eq!(*lines[1].instruction.mnemonic(), Mnemonic::NOP);
    assert_eq!(lines[2].line, 4);
}
