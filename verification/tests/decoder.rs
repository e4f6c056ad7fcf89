use rustyboy::processor::decoder::Decoder;
use rustyboy::processor::flag_register::Flag;
use rustyboy::processor::instruction::{
    AddressType, InstructionInfo, Mnemonic, Operand, Prefix, Reference, ValueType,
};
use rustyboy::processor::registers::RegisterType;

const ILLEGAL: [u8; 11] = [0xD3, 0xDB, 0xDD, 0xE3, 0xE4, 0xEB, 0xEC, 0xED, 0xF4, 0xFC, 0xFD];

fn decode(opcode: u8) -> InstructionInfo {
    Decoder::decode_opcode(opcode, Prefix::Unprefixed).unwrap()
}

fn decode_cb(opcode: u8) -> InstructionInfo {
    Decoder::decode_opcode(opcode, Prefix::CB).unwrap()
}

fn operands(instruction: &InstructionInfo) -> Vec<Operand> {
    instruction.operands().clone().unwrap_or(vec![])
}

#[test]
fn exactly_the_illegal_opcodes_decode_to_nothing() {
    for opcode in 0..=255u8 {
        let decoded = Decoder::decode_opcode(opcode, Prefix::Unprefixed);
        assert_eq!(decoded.is_none(), ILLEGAL.contains(&opcode), "opcode {:#04X}", opcode);
        if let Some(instruction) = decoded {
            assert_eq!(instruction.opcode(), opcode);
        }
    }
}

#[test]
fn every_prefixed_opcode_decodes() {
    for opcode in 0..=255u8 {
        let instruction = decode_cb(opcode);
        assert_eq!(instruction.opcode(), opcode);
        assert!(*instruction.mnemonic() != Mnemonic::CB);
    }
}

#[test]
fn nop_has_no_operands_and_takes_one_cycle() {
    let nop = decode(0x00);
    assert_eq!(*nop.mnemonic(), Mnemonic::NOP);
    assert!(nop.operands().is_none());
    assert_eq!(nop.cycle_count(), 1);
}

#[test]
fn escape_selects_the_second_table() {
    assert_eq!(*decode(0xCB).mnemonic(), Mnemonic::CB);
    let rlc_b = decode_cb(0x00);
    assert_eq!(*rlc_b.mnemonic(), Mnemonic::RLC);
    assert_eq!(
        operands(&rlc_b),
        vec![Operand::Reference(Reference::Register(RegisterType::B))]
    );
    assert_eq!(rlc_b.cycle_count(), 2);
}

#[test]
fn loads_between_registers() {
    let ld = decode(0x41);
    assert_eq!(*ld.mnemonic(), Mnemonic::LD);
    assert_eq!(
        operands(&ld),
        vec![
            Operand::Reference(Reference::Register(RegisterType::B)),
            Operand::Value(ValueType::Register(RegisterType::C)),
        ]
    );
    assert_eq!(ld.cycle_count(), 1);
    let ld = decode(0x7E);
    assert_eq!(
        operands(&ld),
        vec![
            Operand::Reference(Reference::Register(RegisterType::A)),
            Operand::Value(ValueType::Address(AddressType::Register(RegisterType::HL))),
        ]
    );
    assert_eq!(ld.cycle_count(), 2);
    let ld = decode(0x70);
    assert_eq!(
        operands(&ld),
        vec![
            Operand::Reference(Reference::Address(AddressType::Register(RegisterType::HL))),
            Operand::Value(ValueType::Register(RegisterType::B)),
        ]
    );
    assert_eq!(*decode(0x76).mnemonic(), Mnemonic::HALT);
}

#[test]
fn loads_of_immediates() {
    let ld = decode(0x01);
    assert_eq!(
        operands(&ld),
        vec![
            Operand::Reference(Reference::Register(RegisterType::BC)),
            Operand::Value(ValueType::Immediate16),
        ]
    );
    assert_eq!(ld.cycle_count(), 3);
    let ld = decode(0x36);
    assert_eq!(
        operands(&ld),
        vec![
            Operand::Reference(Reference::Address(AddressType::Register(RegisterType::HL))),
            Operand::Value(ValueType::Immediate),
        ]
    );
    assert_eq!(ld.cycle_count(), 3);
    let ld = decode(0x08);
    assert_eq!(
        operands(&ld),
        vec![
            Operand::Reference(Reference::Address(AddressType::Immediate)),
            Operand::Value(ValueType::Register(RegisterType::SP)),
        ]
    );
    assert_eq!(ld.cycle_count(), 5);
}

#[test]
fn loads_through_the_high_page() {
    assert_eq!(
        operands(&decode(0xE0)),
        vec![
            Operand::Reference(Reference::Address(AddressType::IncImmediate)),
            Operand::Value(ValueType::Register(RegisterType::A)),
        ]
    );
    assert_eq!(
        operands(&decode(0xF2)),
        vec![
            Operand::Reference(Reference::Register(RegisterType::A)),
            Operand::Value(ValueType::Address(AddressType::IncRegister(RegisterType::C))),
        ]
    );
    assert_eq!(
        operands(&decode(0xFA)),
        vec![
            Operand::Reference(Reference::Register(RegisterType::A)),
            Operand::Value(ValueType::Address(AddressType::Immediate)),
        ]
    );
}

#[test]
fn loads_that_move_the_pointer() {
    assert_eq!(*decode(0x22).mnemonic(), Mnemonic::LDI);
    assert_eq!(*decode(0x2A).mnemonic(), Mnemonic::LDI);
    assert_eq!(*decode(0x32).mnemonic(), Mnemonic::LDD);
    assert_eq!(*decode(0x3A).mnemonic(), Mnemonic::LDD);
    assert_eq!(*decode(0x02).mnemonic(), Mnemonic::LD);
    assert_eq!(*decode(0xF8).mnemonic(), Mnemonic::LDHL);
}

#[test]
fn arithmetic_on_the_accumulator() {
    let expected = [
        Mnemonic::ADD,
        Mnemonic::ADC,
        Mnemonic::SUB,
        Mnemonic::SBC,
        Mnemonic::AND,
        Mnemonic::XOR,
        Mnemonic::OR,
        Mnemonic::CP,
    ];
    for (row, mnemonic) in expected.iter().enumerate() {
        let register_form = decode(0x80 + 8 * row as u8);
        assert_eq!(register_form.mnemonic(), mnemonic);
        assert_eq!(
            operands(&register_form),
            vec![
                Operand::Reference(Reference::Register(RegisterType::A)),
                Operand::Value(ValueType::Register(RegisterType::B)),
            ]
        );
        assert_eq!(register_form.cycle_count(), 1);
        let immediate_form = decode(0xC6 + 8 * row as u8);
        assert_eq!(immediate_form.mnemonic(), mnemonic);
        assert_eq!(
            operands(&immediate_form),
            vec![
                Operand::Reference(Reference::Register(RegisterType::A)),
                Operand::Value(ValueType::Immediate),
            ]
        );
        assert_eq!(immediate_form.cycle_count(), 2);
    }
}

#[test]
fn jumps_calls_and_returns() {
    let jr = decode(0x20);
    assert_eq!(*jr.mnemonic(), Mnemonic::JR);
    assert_eq!(
        operands(&jr),
        vec![Operand::Condition((Flag::Zero, false)), Operand::Value(ValueType::SignedImmediate)]
    );
    assert_eq!(jr.cycle_count(), 2);
    assert_eq!(decode(0x18).cycle_count(), 3);
    assert_eq!(
        operands(&decode(0xDA)),
        vec![Operand::Condition((Flag::Carry, true)), Operand::Value(ValueType::Immediate16)]
    );
    assert_eq!(decode(0xC3).cycle_count(), 4);
    assert_eq!(*decode(0xCD).mnemonic(), Mnemonic::CALL);
    assert_eq!(decode(0xCD).cycle_count(), 6);
    assert_eq!(decode(0xC4).cycle_count(), 3);
    assert_eq!(*decode(0xC9).mnemonic(), Mnemonic::RET);
    assert_eq!(*decode(0xD9).mnemonic(), Mnemonic::RETI);
    assert_eq!(operands(&decode(0xC8)), vec![Operand::Condition((Flag::Zero, true))]);
    assert_eq!(operands(&decode(0xE9)), vec![Operand::Value(ValueType::Register(RegisterType::HL))]);
    for row in 0..8u8 {
        let rst = decode(0xC7 + 8 * row);
        assert_eq!(*rst.mnemonic(), Mnemonic::RST);
        assert_eq!(operands(&rst), vec![Operand::Value(ValueType::Constant(8 * row as u16))]);
    }
}

#[test]
fn stack_instructions_name_af() {
    assert_eq!(
        operands(&decode(0xF5)),
        vec![Operand::Value(ValueType::Register(RegisterType::AF))]
    );
    assert_eq!(
        operands(&decode(0xF1)),
        vec![Operand::Reference(Reference::Register(RegisterType::AF))]
    );
    assert_eq!(
        operands(&decode(0x31)),
        vec![
            Operand::Reference(Reference::Register(RegisterType::SP)),
            Operand::Value(ValueType::Immediate16),
        ]
    );
}

#[test]
fn bit_instructions() {
    let bit = decode_cb(0x7E);
    assert_eq!(*bit.mnemonic(), Mnemonic::BIT);
    assert_eq!(
        operands(&bit),
        vec![
            Operand::Value(ValueType::Constant(7)),
            Operand::Value(ValueType::Address(AddressType::Register(RegisterType::HL))),
        ]
    );
    assert_eq!(bit.cycle_count(), 3);
    let res = decode_cb(0x87);
    assert_eq!(*res.mnemonic(), Mnemonic::RES);
    assert_eq!(
        operands(&res),
        vec![
            Operand::Value(ValueType::Constant(0)),
            Operand::Reference(Reference::Register(RegisterType::A)),
        ]
    );
    let set = decode_cb(0xFE);
    assert_eq!(*set.mnemonic(), Mnemonic::SET);
    assert_eq!(set.cycle_count(), 4);
    assert_eq!(*decode_cb(0x37).mnemonic(), Mnemonic::SWAP);
    assert_eq!(*decode_cb(0x3F).mnemonic(), Mnemonic::SRL);
}

#[test]
fn instruction_info_keeps_what_it_is_given() {
    let info = InstructionInfo::new(
        0x3E,
        Mnemonic::LD,
        Some(vec![Operand::Value(ValueType::Immediate)]),
        2,
    );
    assert_eq!(info.opcode(), 0x3E);
    assert_eq!(*info.mnemonic(), Mnemonic::LD);
    assert_eq!(info.operands().as_ref().unwrap().len(), 1);
    assert_eq!(info.cycle_count(), 2);
    let copy = info.clone();
    assert_eq!(copy.opcode(), 0x3E);
    assert_eq!(copy.operands(), info.operands());
}

#[test]
fn only_register_pairs_are_sixteen_bits_wide() {
    assert!(Reference::Register(RegisterType::HL).is16bit());
    assert!(Reference::Register(RegisterType::SP).is16bit());
    assert!(!Reference::Register(RegisterType::A).is16bit());
    assert!(!Reference::Address(AddressType::Register(RegisterType::HL)).is16bit());
    assert!(RegisterType::PC.is16bit());
    assert!(!RegisterType::F.is16bit());
}
