//! The decoder: from an opcode byte to the shape of the instruction.
//!
//! The instruction set is laid out regularly. Split an opcode into the
//! fields `x` (bits 7-6), `y` (bits 5-3) and `z` (bits 2-0), and `y` again
//! into `p` (bits 5-4) and `q` (bit 3): most instructions are then one small
//! table indexed by a field. `decoded` states the instruction set in those
//! terms. `Decoder::decode_opcode` is the lookup table that runs, one entry
//! per opcode, and is proved to agree with `decoded` entry by entry.
//!
//! Cycle counts are machine cycles. A conditional instruction's count is
//! that of the branch not taken.
use crate::bus::Readable;
use crate::processor::flag_register::Flag;
use crate::processor::instruction::Mnemonic::{
    ADC, ADD, AND, BIT, CALL, CCF, CP, CPL, DAA, DEC, DI, EI, HALT, INC, JP, JR, LD, LDD, LDHL,
    LDI, NOP, OR, POP, PUSH, RES, RET, RETI, RL, RLA, RLC, RLCA, RR, RRA, RRC, RRCA, RST, SBC,
    SCF, SET, SLA, SRA, SRL, STOP, SUB, SWAP, XOR,
};
use crate::processor::instruction::{
    AddressType, Condition, InstructionInfo, InstructionShape, Mnemonic, Operand, Prefix,
    Reference, ValueType,
};
use crate::processor::registers::RegisterType;
use crate::processor::registers::RegisterType::{A, AF, B, BC, C, D, DE, E, H, HL, L, SP};
use vstd::prelude::*;

verus! {

/// The opcode of the escape to the second table.
pub const CB_ESCAPE: u8 = 0xCB;

/// The 8-bit register that a 3-bit field names. Field value 6 names no
/// register: it stands for the byte in memory that HL points at.
pub open spec fn register8(field: int) -> RegisterType {
    if field == 0 {
        B
    } else if field == 1 {
        C
    } else if field == 2 {
        D
    } else if field == 3 {
        E
    } else if field == 4 {
        H
    } else if field == 5 {
        L
    } else {
        A
    }
}

/// The byte that a 3-bit field names, read.
pub open spec fn source8(field: int) -> Operand {
    if field == 6 {
        Operand::Value(ValueType::Address(AddressType::Register(HL)))
    } else {
        Operand::Value(ValueType::Register(register8(field)))
    }
}

/// The byte that a 3-bit field names, as a place to write.
pub open spec fn target8(field: int) -> Operand {
    if field == 6 {
        Operand::Reference(Reference::Address(AddressType::Register(HL)))
    } else {
        Operand::Reference(Reference::Register(register8(field)))
    }
}

/// The 16-bit register that a 2-bit field names in loads and arithmetic.
pub open spec fn register16(field: int) -> RegisterType {
    if field == 0 {
        BC
    } else if field == 1 {
        DE
    } else if field == 2 {
        HL
    } else {
        SP
    }
}

/// The 16-bit register that a 2-bit field names in PUSH and POP.
pub open spec fn stack_register16(field: int) -> RegisterType {
    if field == 3 {
        AF
    } else {
        register16(field)
    }
}

/// The branch condition that a 2-bit field names: NZ, Z, NC, C.
pub open spec fn condition(field: int) -> Condition {
    (
        if field < 2 {
            Flag::Zero
        } else {
            Flag::Carry
        },
        field % 2 == 1,
    )
}

/// The accumulator operation that a 3-bit field names.
pub open spec fn arithmetic(field: int) -> Mnemonic {
    if field == 0 {
        ADD
    } else if field == 1 {
        ADC
    } else if field == 2 {
        SUB
    } else if field == 3 {
        SBC
    } else if field == 4 {
        AND
    } else if field == 5 {
        XOR
    } else if field == 6 {
        OR
    } else {
        CP
    }
}

/// The rotation or shift that a 3-bit field names.
pub open spec fn rotation(field: int) -> Mnemonic {
    if field == 0 {
        RLC
    } else if field == 1 {
        RRC
    } else if field == 2 {
        RL
    } else if field == 3 {
        RR
    } else if field == 4 {
        SLA
    } else if field == 5 {
        SRA
    } else if field == 6 {
        SWAP
    } else {
        SRL
    }
}

/// The accumulator and flag adjustments of the first table's column 7.
pub open spec fn adjustment(field: int) -> Mnemonic {
    if field == 0 {
        RLCA
    } else if field == 1 {
        RRCA
    } else if field == 2 {
        RLA
    } else if field == 3 {
        RRA
    } else if field == 4 {
        DAA
    } else if field == 5 {
        CPL
    } else if field == 6 {
        SCF
    } else {
        CCF
    }
}

/// An instruction without operands.
pub open spec fn shape0(opcode: u8, mnemonic: Mnemonic, cycle_count: u8) -> InstructionShape {
    InstructionShape { opcode, mnemonic, operands: None, cycle_count }
}

/// An instruction with one operand.
pub open spec fn shape1(opcode: u8, mnemonic: Mnemonic, first: Operand, cycle_count: u8)
    -> InstructionShape {
    InstructionShape { opcode, mnemonic, operands: Some(seq![first]), cycle_count }
}

/// An instruction with two operands.
pub open spec fn shape2(
    opcode: u8,
    mnemonic: Mnemonic,
    first: Operand,
    second: Operand,
    cycle_count: u8,
) -> InstructionShape {
    InstructionShape { opcode, mnemonic, operands: Some(seq![first, second]), cycle_count }
}

/// One more cycle where the field names the byte at HL, which has to be
/// fetched from memory.
pub open spec fn memory_cycles(field: int, extra: int) -> int {
    if field == 6 {
        extra
    } else {
        0
    }
}

/// The first quarter of the first table, `x == 0`: loads of immediates,
/// 16-bit arithmetic, increments, relative jumps.
pub open spec fn quarter0(opcode: u8) -> Option<InstructionShape> {
    let y: int = (opcode as int / 8) % 8;
    let z: int = opcode as int % 8;
    let p: int = y / 2;
    let q: int = y % 2;
    let a = Operand::Value(ValueType::Register(A));
    let to_a = Operand::Reference(Reference::Register(A));
    let pointer = if p == 0 {
        BC
    } else if p == 1 {
        DE
    } else {
        HL
    };
    let pointed = if p == 2 {
        LDI
    } else if p == 3 {
        LDD
    } else {
        LD
    };
    Some(
        if z == 0 {
            if y == 0 {
                shape0(opcode, NOP, 1)
            } else if y == 1 {
                shape2(
                    opcode,
                    LD,
                    Operand::Reference(Reference::Address(AddressType::Immediate)),
                    Operand::Value(ValueType::Register(SP)),
                    5,
                )
            } else if y == 2 {
                shape0(opcode, STOP, 1)
            } else if y == 3 {
                shape1(opcode, JR, Operand::Value(ValueType::SignedImmediate), 3)
            } else {
                shape2(
                    opcode,
                    JR,
                    Operand::Condition(condition(y - 4)),
                    Operand::Value(ValueType::SignedImmediate),
                    2,
                )
            }
        } else if z == 1 {
            if q == 0 {
                shape2(
                    opcode,
                    LD,
                    Operand::Reference(Reference::Register(register16(p))),
                    Operand::Value(ValueType::Immediate16),
                    3,
                )
            } else {
                shape2(
                    opcode,
                    ADD,
                    Operand::Reference(Reference::Register(HL)),
                    Operand::Value(ValueType::Register(register16(p))),
                    2,
                )
            }
        } else if z == 2 {
            if q == 0 {
                shape2(
                    opcode,
                    pointed,
                    Operand::Reference(Reference::Address(AddressType::Register(pointer))),
                    a,
                    2,
                )
            } else {
                shape2(
                    opcode,
                    pointed,
                    to_a,
                    Operand::Value(ValueType::Address(AddressType::Register(pointer))),
                    2,
                )
            }
        } else if z == 3 {
            shape1(
                opcode,
                if q == 0 {
                    INC
                } else {
                    DEC
                },
                Operand::Reference(Reference::Register(register16(p))),
                2,
            )
        } else if z == 4 {
            shape1(opcode, INC, target8(y), (1 + memory_cycles(y, 2)) as u8)
        } else if z == 5 {
            shape1(opcode, DEC, target8(y), (1 + memory_cycles(y, 2)) as u8)
        } else if z == 6 {
            shape2(
                opcode,
                LD,
                target8(y),
                Operand::Value(ValueType::Immediate),
                (2 + memory_cycles(y, 1)) as u8,
            )
        } else {
            shape0(opcode, adjustment(y), 1)
        },
    )
}

/// The second quarter, `x == 1`: loads between 8-bit places. The entry that
/// would load the byte at HL onto itself is HALT.
pub open spec fn quarter1(opcode: u8) -> Option<InstructionShape> {
    let y: int = (opcode as int / 8) % 8;
    let z: int = opcode as int % 8;
    Some(
        if y == 6 && z == 6 {
            shape0(opcode, HALT, 1)
        } else {
            shape2(
                opcode,
                LD,
                target8(y),
                source8(z),
                (1 + memory_cycles(y, 1) + memory_cycles(z, 1)) as u8,
            )
        },
    )
}

/// The third quarter, `x == 2`: the accumulator with an 8-bit place.
pub open spec fn quarter2(opcode: u8) -> Option<InstructionShape> {
    let y: int = (opcode as int / 8) % 8;
    let z: int = opcode as int % 8;
    Some(
        shape2(
            opcode,
            arithmetic(y),
            Operand::Reference(Reference::Register(A)),
            source8(z),
            (1 + memory_cycles(z, 1)) as u8,
        ),
    )
}

/// The last quarter, `x == 3`: jumps, calls and returns, the stack, the
/// accumulator with an immediate, loads through the high page. This is
/// where the opcodes without an instruction are.
pub open spec fn quarter3(opcode: u8) -> Option<InstructionShape> {
    let y: int = (opcode as int / 8) % 8;
    let z: int = opcode as int % 8;
    let p: int = y / 2;
    let q: int = y % 2;
    let a = Operand::Value(ValueType::Register(A));
    let to_a = Operand::Reference(Reference::Register(A));
    let word = Operand::Value(ValueType::Immediate16);
    let offset = Operand::Value(ValueType::SignedImmediate);
    if z == 0 {
        Some(
            if y < 4 {
                shape1(opcode, RET, Operand::Condition(condition(y)), 2)
            } else if y == 4 {
                shape2(
                    opcode,
                    LD,
                    Operand::Reference(Reference::Address(AddressType::IncImmediate)),
                    a,
                    3,
                )
            } else if y == 5 {
                shape2(opcode, ADD, Operand::Reference(Reference::Register(SP)), offset, 4)
            } else if y == 6 {
                shape2(
                    opcode,
                    LD,
                    to_a,
                    Operand::Value(ValueType::Address(AddressType::IncImmediate)),
                    3,
                )
            } else {
                shape2(opcode, LDHL, Operand::Value(ValueType::Register(SP)), offset, 3)
            },
        )
    } else if z == 1 {
        Some(
            if q == 0 {
                shape1(
                    opcode,
                    POP,
                    Operand::Reference(Reference::Register(stack_register16(p))),
                    3,
                )
            } else if p == 0 {
                shape0(opcode, RET, 4)
            } else if p == 1 {
                shape0(opcode, RETI, 4)
            } else if p == 2 {
                shape1(opcode, JP, Operand::Value(ValueType::Register(HL)), 1)
            } else {
                shape2(
                    opcode,
                    LD,
                    Operand::Reference(Reference::Register(SP)),
                    Operand::Value(ValueType::Register(HL)),
                    2,
                )
            },
        )
    } else if z == 2 {
        Some(
            if y < 4 {
                shape2(opcode, JP, Operand::Condition(condition(y)), word, 3)
            } else if y == 4 {
                shape2(
                    opcode,
                    LD,
                    Operand::Reference(Reference::Address(AddressType::IncRegister(C))),
                    a,
                    2,
                )
            } else if y == 5 {
                shape2(
                    opcode,
                    LD,
                    Operand::Reference(Reference::Address(AddressType::Immediate)),
                    a,
                    4,
                )
            } else if y == 6 {
                shape2(
                    opcode,
                    LD,
                    to_a,
                    Operand::Value(ValueType::Address(AddressType::IncRegister(C))),
                    2,
                )
            } else {
                shape2(
                    opcode,
                    LD,
                    to_a,
                    Operand::Value(ValueType::Address(AddressType::Immediate)),
                    4,
                )
            },
        )
    } else if z == 3 {
        if y == 0 {
            Some(shape1(opcode, JP, word, 4))
        } else if y == 1 {
            Some(shape0(opcode, Mnemonic::CB, 1))
        } else if y == 6 {
            Some(shape0(opcode, DI, 1))
        } else if y == 7 {
            Some(shape0(opcode, EI, 1))
        } else {
            None
        }
    } else if z == 4 {
        if y < 4 {
            Some(shape2(opcode, CALL, Operand::Condition(condition(y)), word, 3))
        } else {
            None
        }
    } else if z == 5 {
        if q == 0 {
            Some(
                shape1(opcode, PUSH, Operand::Value(ValueType::Register(stack_register16(p))), 4),
            )
        } else if p == 0 {
            Some(shape1(opcode, CALL, word, 6))
        } else {
            None
        }
    } else if z == 6 {
        Some(shape2(opcode, arithmetic(y), to_a, Operand::Value(ValueType::Immediate), 2))
    } else {
        Some(shape1(opcode, RST, Operand::Value(ValueType::Constant((y * 8) as u16)), 4))
    }
}

/// The instruction that `opcode` stands for in the first table, if any.
#[verifier::opaque]
pub open spec fn unprefixed(opcode: u8) -> Option<InstructionShape> {
    let x: int = opcode as int / 64;
    if x == 0 {
        quarter0(opcode)
    } else if x == 1 {
        quarter1(opcode)
    } else if x == 2 {
        quarter2(opcode)
    } else {
        quarter3(opcode)
    }
}

/// The instruction that `opcode` stands for in the second table: a rotation
/// or shift of an 8-bit place, or a test, a reset or a set of one of its
/// bits. Every opcode stands for one.
#[verifier::opaque]
pub open spec fn prefixed(opcode: u8) -> InstructionShape {
    let x: int = opcode as int / 64;
    let y: int = (opcode as int / 8) % 8;
    let z: int = opcode as int % 8;
    let bit = Operand::Value(ValueType::Constant(y as u16));
    if x == 0 {
        shape1(opcode, rotation(y), target8(z), (2 + memory_cycles(z, 2)) as u8)
    } else if x == 1 {
        shape2(opcode, BIT, bit, source8(z), (2 + memory_cycles(z, 1)) as u8)
    } else if x == 2 {
        shape2(opcode, RES, bit, target8(z), (2 + memory_cycles(z, 2)) as u8)
    } else {
        shape2(opcode, SET, bit, target8(z), (2 + memory_cycles(z, 2)) as u8)
    }
}

/// The instruction that `opcode` stands for in the table that `prefix`
/// selects; `None` where the table has no instruction for it.
pub open spec fn decoded(opcode: u8, prefix: Prefix) -> Option<InstructionShape> {
    match prefix {
        Prefix::Unprefixed => unprefixed(opcode),
        Prefix::CB => Some(prefixed(opcode)),
    }
}

/// The opcode table entry for the instruction at `address`: the entry of
/// the first table for the byte there, or, where that is the escape, the
/// entry of the second table for the byte after it.
#[verifier::opaque]
pub open spec fn entry_at<B: Readable>(bus: &B, address: u16) -> Option<InstructionShape> {
    match decoded(bus.byte_at(address), Prefix::Unprefixed) {
        Some(shape) => if shape.mnemonic == Mnemonic::CB {
            decoded(bus.byte_at(crate::processor::operand_parser::advanced(address, 1)), Prefix::CB)
        } else {
            Some(shape)
        },
        None => None,
    }
}

/// The number of bytes that the opcode of the instruction at `address`
/// takes up: two where the first is the escape, one otherwise, also where
/// no instruction is.
#[verifier::opaque]
pub open spec fn opcode_length<B: Readable>(bus: &B, address: u16) -> int {
    match decoded(bus.byte_at(address), Prefix::Unprefixed) {
        Some(shape) => if shape.mnemonic == Mnemonic::CB {
            2
        } else {
            1
        },
        None => 1,
    }
}

/// The opcodes of the first table that stand for no instruction.
pub open spec fn is_illegal(opcode: u8) -> bool {
    opcode == 0xD3 || opcode == 0xDB || opcode == 0xDD || opcode == 0xE3 || opcode == 0xE4
        || opcode == 0xEB || opcode == 0xEC || opcode == 0xED || opcode == 0xF4 || opcode == 0xFC
        || opcode == 0xFD
}

/// The first table has an instruction for every opcode but the eleven
/// illegal ones, the second table for every opcode; and an entry records
/// the opcode it stands at.
pub proof fn lemma_defined_opcodes(opcode: u8)
    ensures
        decoded(opcode, Prefix::Unprefixed) is None <==> is_illegal(opcode),
        decoded(opcode, Prefix::CB) is Some,
        decoded(opcode, Prefix::Unprefixed) matches Some(shape) ==> shape.opcode == opcode,
        decoded(opcode, Prefix::CB)->0.opcode == opcode,
{
    reveal(unprefixed);
    reveal(prefixed);
}

/// No instruction has more than two operands.
pub proof fn lemma_operand_count(opcode: u8, prefix: Prefix)
    ensures
        decoded(opcode, prefix) matches Some(shape) ==> (shape.operands matches Some(operands)
            ==> operands.len() <= 2),
{
    reveal(unprefixed);
    reveal(prefixed);
}

/// Opcode 0x00 is NOP, without operands, one cycle long. Opcode 0xCB is the
/// escape to the second table, and that table is another one: its entry
/// 0x00 rotates register B left.
pub proof fn lemma_escape_selects_second_table()
    ensures
        decoded(0x00, Prefix::Unprefixed) == Some(shape0(0x00, NOP, 1)),
        decoded(CB_ESCAPE, Prefix::Unprefixed) == Some(shape0(0xCB, Mnemonic::CB, 1)),
        decoded(0x00, Prefix::CB) == Some(
            shape1(0x00, RLC, Operand::Reference(Reference::Register(B)), 2),
        ),
{
    reveal(unprefixed);
    reveal(prefixed);
}

/// The view of what `decode_opcode` returns.
pub open spec fn shape_of(instruction: Option<InstructionInfo>) -> Option<InstructionShape> {
    match instruction {
        Some(instruction) => Some(instruction@),
        None => None,
    }
}

fn nullary(opcode: u8, mnemonic: Mnemonic, cycle_count: u8) -> (r: InstructionInfo)
    ensures
        r@ == shape0(opcode, mnemonic, cycle_count),
{
    InstructionInfo::new(opcode, mnemonic, None, cycle_count)
}

fn unary(opcode: u8, mnemonic: Mnemonic, first: Operand, cycle_count: u8) -> (r: InstructionInfo)
    ensures
        r@ == shape1(opcode, mnemonic, first, cycle_count),
{
    let mut operands: Vec<Operand> = Vec::new();
    operands.push(first);
    assert(operands@ =~= seq![first]);
    InstructionInfo::new(opcode, mnemonic, Some(operands), cycle_count)
}

fn binary(opcode: u8, mnemonic: Mnemonic, first: Operand, second: Operand, cycle_count: u8) -> (r:
    InstructionInfo)
    ensures
        r@ == shape2(opcode, mnemonic, first, second, cycle_count),
{
    let mut operands: Vec<Operand> = Vec::new();
    operands.push(first);
    operands.push(second);
    assert(operands@ =~= seq![first, second]);
    InstructionInfo::new(opcode, mnemonic, Some(operands), cycle_count)
}

fn reg(register: RegisterType) -> (o: Operand)
    ensures
        o == Operand::Value(ValueType::Register(register)),
{
    Operand::Value(ValueType::Register(register))
}

fn to_reg(register: RegisterType) -> (o: Operand)
    ensures
        o == Operand::Reference(Reference::Register(register)),
{
    Operand::Reference(Reference::Register(register))
}

fn mem(register: RegisterType) -> (o: Operand)
    ensures
        o == Operand::Value(ValueType::Address(AddressType::Register(register))),
{
    Operand::Value(ValueType::Address(AddressType::Register(register)))
}

fn to_mem(register: RegisterType) -> (o: Operand)
    ensures
        o == Operand::Reference(Reference::Address(AddressType::Register(register))),
{
    Operand::Reference(Reference::Address(AddressType::Register(register)))
}

fn high_mem(register: RegisterType) -> (o: Operand)
    ensures
        o == Operand::Value(ValueType::Address(AddressType::IncRegister(register))),
{
    Operand::Value(ValueType::Address(AddressType::IncRegister(register)))
}

fn to_high_mem(register: RegisterType) -> (o: Operand)
    ensures
        o == Operand::Reference(Reference::Address(AddressType::IncRegister(register))),
{
    Operand::Reference(Reference::Address(AddressType::IncRegister(register)))
}

fn imm8() -> (o: Operand)
    ensures
        o == Operand::Value(ValueType::Immediate),
{
    Operand::Value(ValueType::Immediate)
}

fn rel8() -> (o: Operand)
    ensures
        o == Operand::Value(ValueType::SignedImmediate),
{
    Operand::Value(ValueType::SignedImmediate)
}

fn imm16() -> (o: Operand)
    ensures
        o == Operand::Value(ValueType::Immediate16),
{
    Operand::Value(ValueType::Immediate16)
}

fn mem_imm16() -> (o: Operand)
    ensures
        o == Operand::Value(ValueType::Address(AddressType::Immediate)),
{
    Operand::Value(ValueType::Address(AddressType::Immediate))
}

fn to_mem_imm16() -> (o: Operand)
    ensures
        o == Operand::Reference(Reference::Address(AddressType::Immediate)),
{
    Operand::Reference(Reference::Address(AddressType::Immediate))
}

fn high_mem_imm8() -> (o: Operand)
    ensures
        o == Operand::Value(ValueType::Address(AddressType::IncImmediate)),
{
    Operand::Value(ValueType::Address(AddressType::IncImmediate))
}

fn to_high_mem_imm8() -> (o: Operand)
    ensures
        o == Operand::Reference(Reference::Address(AddressType::IncImmediate)),
{
    Operand::Reference(Reference::Address(AddressType::IncImmediate))
}

fn when(flag: Flag, expected: bool) -> (o: Operand)
    ensures
        o == Operand::Condition((flag, expected)),
{
    Operand::Condition((flag, expected))
}

fn constant(number: u16) -> (o: Operand)
    ensures
        o == Operand::Value(ValueType::Constant(number)),
{
    Operand::Value(ValueType::Constant(number))
}

/// Entries 0x00 to 0x3F of the first table.
#[verifier::rlimit(60)]
fn base_table_0(opcode: u8) -> (r: Option<InstructionInfo>)
    requires
        opcode / 64 == 0,
    ensures
        shape_of(r) == unprefixed(opcode),
{
    proof {
        reveal(unprefixed);
    }
    match opcode {
        0x00 => Some(nullary(0x00, NOP, 1)),
        0x01 => Some(binary(0x01, LD, to_reg(BC), imm16(), 3)),
        0x02 => Some(binary(0x02, LD, to_mem(BC), reg(A), 2)),
        0x03 => Some(unary(0x03, INC, to_reg(BC), 2)),
        0x04 => Some(unary(0x04, INC, to_reg(B), 1)),
        0x05 => Some(unary(0x05, DEC, to_reg(B), 1)),
        0x06 => Some(binary(0x06, LD, to_reg(B), imm8(), 2)),
        0x07 => Some(nullary(0x07, RLCA, 1)),
        0x08 => Some(binary(0x08, LD, to_mem_imm16(), reg(SP), 5)),
        0x09 => Some(binary(0x09, ADD, to_reg(HL), reg(BC), 2)),
        0x0A => Some(binary(0x0A, LD, to_reg(A), mem(BC), 2)),
        0x0B => Some(unary(0x0B, DEC, to_reg(BC), 2)),
        0x0C => Some(unary(0x0C, INC, to_reg(C), 1)),
        0x0D => Some(unary(0x0D, DEC, to_reg(C), 1)),
        0x0E => Some(binary(0x0E, LD, to_reg(C), imm8(), 2)),
        0x0F => Some(nullary(0x0F, RRCA, 1)),
        0x10 => Some(nullary(0x10, STOP, 1)),
        0x11 => Some(binary(0x11, LD, to_reg(DE), imm16(), 3)),
        0x12 => Some(binary(0x12, LD, to_mem(DE), reg(A), 2)),
        0x13 => Some(unary(0x13, INC, to_reg(DE), 2)),
        0x14 => Some(unary(0x14, INC, to_reg(D), 1)),
        0x15 => Some(unary(0x15, DEC, to_reg(D), 1)),
        0x16 => Some(binary(0x16, LD, to_reg(D), imm8(), 2)),
        0x17 => Some(nullary(0x17, RLA, 1)),
        0x18 => Some(unary(0x18, JR, rel8(), 3)),
        0x19 => Some(binary(0x19, ADD, to_reg(HL), reg(DE), 2)),
        0x1A => Some(binary(0x1A, LD, to_reg(A), mem(DE), 2)),
        0x1B => Some(unary(0x1B, DEC, to_reg(DE), 2)),
        0x1C => Some(unary(0x1C, INC, to_reg(E), 1)),
        0x1D => Some(unary(0x1D, DEC, to_reg(E), 1)),
        0x1E => Some(binary(0x1E, LD, to_reg(E), imm8(), 2)),
        0x1F => Some(nullary(0x1F, RRA, 1)),
        0x20 => Some(binary(0x20, JR, when(Flag::Zero, false), rel8(), 2)),
        0x21 => Some(binary(0x21, LD, to_reg(HL), imm16(), 3)),
        0x22 => Some(binary(0x22, LDI, to_mem(HL), reg(A), 2)),
        0x23 => Some(unary(0x23, INC, to_reg(HL), 2)),
        0x24 => Some(unary(0x24, INC, to_reg(H), 1)),
        0x25 => Some(unary(0x25, DEC, to_reg(H), 1)),
        0x26 => Some(binary(0x26, LD, to_reg(H), imm8(), 2)),
        0x27 => Some(nullary(0x27, DAA, 1)),
        0x28 => Some(binary(0x28, JR, when(Flag::Zero, true), rel8(), 2)),
        0x29 => Some(binary(0x29, ADD, to_reg(HL), reg(HL), 2)),
        0x2A => Some(binary(0x2A, LDI, to_reg(A), mem(HL), 2)),
        0x2B => Some(unary(0x2B, DEC, to_reg(HL), 2)),
        0x2C => Some(unary(0x2C, INC, to_reg(L), 1)),
        0x2D => Some(unary(0x2D, DEC, to_reg(L), 1)),
        0x2E => Some(binary(0x2E, LD, to_reg(L), imm8(), 2)),
        0x2F => Some(nullary(0x2F, CPL, 1)),
        0x30 => Some(binary(0x30, JR, when(Flag::Carry, false), rel8(), 2)),
        0x31 => Some(binary(0x31, LD, to_reg(SP), imm16(), 3)),
        0x32 => Some(binary(0x32, LDD, to_mem(HL), reg(A), 2)),
        0x33 => Some(unary(0x33, INC, to_reg(SP), 2)),
        0x34 => Some(unary(0x34, INC, to_mem(HL), 3)),
        0x35 => Some(unary(0x35, DEC, to_mem(HL), 3)),
        0x36 => Some(binary(0x36, LD, to_mem(HL), imm8(), 3)),
        0x37 => Some(nullary(0x37, SCF, 1)),
        0x38 => Some(binary(0x38, JR, when(Flag::Carry, true), rel8(), 2)),
        0x39 => Some(binary(0x39, ADD, to_reg(HL), reg(SP), 2)),
        0x3A => Some(binary(0x3A, LDD, to_reg(A), mem(HL), 2)),
        0x3B => Some(unary(0x3B, DEC, to_reg(SP), 2)),
        0x3C => Some(unary(0x3C, INC, to_reg(A), 1)),
        0x3D => Some(unary(0x3D, DEC, to_reg(A), 1)),
        0x3E => Some(binary(0x3E, LD, to_reg(A), imm8(), 2)),
        0x3F => Some(nullary(0x3F, CCF, 1)),
        _ => None,
    }
}

/// Entries 0x40 to 0x7F of the first table.
#[verifier::rlimit(60)]
fn base_table_1(opcode: u8) -> (r: Option<InstructionInfo>)
    requires
        opcode / 64 == 1,
    ensures
        shape_of(r) == unprefixed(opcode),
{
    proof {
        reveal(unprefixed);
    }
    match opcode {
        0x40 => Some(binary(0x40, LD, to_reg(B), reg(B), 1)),
        0x41 => Some(binary(0x41, LD, to_reg(B), reg(C), 1)),
        0x42 => Some(binary(0x42, LD, to_reg(B), reg(D), 1)),
        0x43 => Some(binary(0x43, LD, to_reg(B), reg(E), 1)),
        0x44 => Some(binary(0x44, LD, to_reg(B), reg(H), 1)),
        0x45 => Some(binary(0x45, LD, to_reg(B), reg(L), 1)),
        0x46 => Some(binary(0x46, LD, to_reg(B), mem(HL), 2)),
        0x47 => Some(binary(0x47, LD, to_reg(B), reg(A), 1)),
        0x48 => Some(binary(0x48, LD, to_reg(C), reg(B), 1)),
        0x49 => Some(binary(0x49, LD, to_reg(C), reg(C), 1)),
        0x4A => Some(binary(0x4A, LD, to_reg(C), reg(D), 1)),
        0x4B => Some(binary(0x4B, LD, to_reg(C), reg(E), 1)),
        0x4C => Some(binary(0x4C, LD, to_reg(C), reg(H), 1)),
        0x4D => Some(binary(0x4D, LD, to_reg(C), reg(L), 1)),
        0x4E => Some(binary(0x4E, LD, to_reg(C), mem(HL), 2)),
        0x4F => Some(binary(0x4F, LD, to_reg(C), reg(A), 1)),
        0x50 => Some(binary(0x50, LD, to_reg(D), reg(B), 1)),
        0x51 => Some(binary(0x51, LD, to_reg(D), reg(C), 1)),
        0x52 => Some(binary(0x52, LD, to_reg(D), reg(D), 1)),
        0x53 => Some(binary(0x53, LD, to_reg(D), reg(E), 1)),
        0x54 => Some(binary(0x54, LD, to_reg(D), reg(H), 1)),
        0x55 => Some(binary(0x55, LD, to_reg(D), reg(L), 1)),
        0x56 => Some(binary(0x56, LD, to_reg(D), mem(HL), 2)),
        0x57 => Some(binary(0x57, LD, to_reg(D), reg(A), 1)),
        0x58 => Some(binary(0x58, LD, to_reg(E), reg(B), 1)),
        0x59 => Some(binary(0x59, LD, to_reg(E), reg(C), 1)),
        0x5A => Some(binary(0x5A, LD, to_reg(E), reg(D), 1)),
        0x5B => Some(binary(0x5B, LD, to_reg(E), reg(E), 1)),
        0x5C => Some(binary(0x5C, LD, to_reg(E), reg(H), 1)),
        0x5D => Some(binary(0x5D, LD, to_reg(E), reg(L), 1)),
        0x5E => Some(binary(0x5E, LD, to_reg(E), mem(HL), 2)),
        0x5F => Some(binary(0x5F, LD, to_reg(E), reg(A), 1)),
        0x60 => Some(binary(0x60, LD, to_reg(H), reg(B), 1)),
        0x61 => Some(binary(0x61, LD, to_reg(H), reg(C), 1)),
        0x62 => Some(binary(0x62, LD, to_reg(H), reg(D), 1)),
        0x63 => Some(binary(0x63, LD, to_reg(H), reg(E), 1)),
        0x64 => Some(binary(0x64, LD, to_reg(H), reg(H), 1)),
        0x65 => Some(binary(0x65, LD, to_reg(H), reg(L), 1)),
        0x66 => Some(binary(0x66, LD, to_reg(H), mem(HL), 2)),
        0x67 => Some(binary(0x67, LD, to_reg(H), reg(A), 1)),
        0x68 => Some(binary(0x68, LD, to_reg(L), reg(B), 1)),
        0x69 => Some(binary(0x69, LD, to_reg(L), reg(C), 1)),
        0x6A => Some(binary(0x6A, LD, to_reg(L), reg(D), 1)),
        0x6B => Some(binary(0x6B, LD, to_reg(L), reg(E), 1)),
        0x6C => Some(binary(0x6C, LD, to_reg(L), reg(H), 1)),
        0x6D => Some(binary(0x6D, LD, to_reg(L), reg(L), 1)),
        0x6E => Some(binary(0x6E, LD, to_reg(L), mem(HL), 2)),
        0x6F => Some(binary(0x6F, LD, to_reg(L), reg(A), 1)),
        0x70 => Some(binary(0x70, LD, to_mem(HL), reg(B), 2)),
        0x71 => Some(binary(0x71, LD, to_mem(HL), reg(C), 2)),
        0x72 => Some(binary(0x72, LD, to_mem(HL), reg(D), 2)),
        0x73 => Some(binary(0x73, LD, to_mem(HL), reg(E), 2)),
        0x74 => Some(binary(0x74, LD, to_mem(HL), reg(H), 2)),
        0x75 => Some(binary(0x75, LD, to_mem(HL), reg(L), 2)),
        0x76 => Some(nullary(0x76, HALT, 1)),
        0x77 => Some(binary(0x77, LD, to_mem(HL), reg(A), 2)),
        0x78 => Some(binary(0x78, LD, to_reg(A), reg(B), 1)),
        0x79 => Some(binary(0x79, LD, to_reg(A), reg(C), 1)),
        0x7A => Some(binary(0x7A, LD, to_reg(A), reg(D), 1)),
        0x7B => Some(binary(0x7B, LD, to_reg(A), reg(E), 1)),
        0x7C => Some(binary(0x7C, LD, to_reg(A), reg(H), 1)),
        0x7D => Some(binary(0x7D, LD, to_reg(A), reg(L), 1)),
        0x7E => Some(binary(0x7E, LD, to_reg(A), mem(HL), 2)),
        0x7F => Some(binary(0x7F, LD, to_reg(A), reg(A), 1)),
        _ => None,
    }
}

/// Entries 0x80 to 0xBF of the first table.
#[verifier::rlimit(60)]
fn base_table_2(opcode: u8) -> (r: Option<InstructionInfo>)
    requires
        opcode / 64 == 2,
    ensures
        shape_of(r) == unprefixed(opcode),
{
    proof {
        reveal(unprefixed);
    }
    match opcode {
        0x80 => Some(binary(0x80, ADD, to_reg(A), reg(B), 1)),
        0x81 => Some(binary(0x81, ADD, to_reg(A), reg(C), 1)),
        0x82 => Some(binary(0x82, ADD, to_reg(A), reg(D), 1)),
        0x83 => Some(binary(0x83, ADD, to_reg(A), reg(E), 1)),
        0x84 => Some(binary(0x84, ADD, to_reg(A), reg(H), 1)),
        0x85 => Some(binary(0x85, ADD, to_reg(A), reg(L), 1)),
        0x86 => Some(binary(0x86, ADD, to_reg(A), mem(HL), 2)),
        0x87 => Some(binary(0x87, ADD, to_reg(A), reg(A), 1)),
        0x88 => Some(binary(0x88, ADC, to_reg(A), reg(B), 1)),
        0x89 => Some(binary(0x89, ADC, to_reg(A), reg(C), 1)),
        0x8A => Some(binary(0x8A, ADC, to_reg(A), reg(D), 1)),
        0x8B => Some(binary(0x8B, ADC, to_reg(A), reg(E), 1)),
        0x8C => Some(binary(0x8C, ADC, to_reg(A), reg(H), 1)),
        0x8D => Some(binary(0x8D, ADC, to_reg(A), reg(L), 1)),
        0x8E => Some(binary(0x8E, ADC, to_reg(A), mem(HL), 2)),
        0x8F => Some(binary(0x8F, ADC, to_reg(A), reg(A), 1)),
        0x90 => Some(binary(0x90, SUB, to_reg(A), reg(B), 1)),
        0x91 => Some(binary(0x91, SUB, to_reg(A), reg(C), 1)),
        0x92 => Some(binary(0x92, SUB, to_reg(A), reg(D), 1)),
        0x93 => Some(binary(0x93, SUB, to_reg(A), reg(E), 1)),
        0x94 => Some(binary(0x94, SUB, to_reg(A), reg(H), 1)),
        0x95 => Some(binary(0x95, SUB, to_reg(A), reg(L), 1)),
        0x96 => Some(binary(0x96, SUB, to_reg(A), mem(HL), 2)),
        0x97 => Some(binary(0x97, SUB, to_reg(A), reg(A), 1)),
        0x98 => Some(binary(0x98, SBC, to_reg(A), reg(B), 1)),
        0x99 => Some(binary(0x99, SBC, to_reg(A), reg(C), 1)),
        0x9A => Some(binary(0x9A, SBC, to_reg(A), reg(D), 1)),
        0x9B => Some(binary(0x9B, SBC, to_reg(A), reg(E), 1)),
        0x9C => Some(binary(0x9C, SBC, to_reg(A), reg(H), 1)),
        0x9D => Some(binary(0x9D, SBC, to_reg(A), reg(L), 1)),
        0x9E => Some(binary(0x9E, SBC, to_reg(A), mem(HL), 2)),
        0x9F => Some(binary(0x9F, SBC, to_reg(A), reg(A), 1)),
        0xA0 => Some(binary(0xA0, AND, to_reg(A), reg(B), 1)),
        0xA1 => Some(binary(0xA1, AND, to_reg(A), reg(C), 1)),
        0xA2 => Some(binary(0xA2, AND, to_reg(A), reg(D), 1)),
        0xA3 => Some(binary(0xA3, AND, to_reg(A), reg(E), 1)),
        0xA4 => Some(binary(0xA4, AND, to_reg(A), reg(H), 1)),
        0xA5 => Some(binary(0xA5, AND, to_reg(A), reg(L), 1)),
        0xA6 => Some(binary(0xA6, AND, to_reg(A), mem(HL), 2)),
        0xA7 => Some(binary(0xA7, AND, to_reg(A), reg(A), 1)),
        0xA8 => Some(binary(0xA8, XOR, to_reg(A), reg(B), 1)),
        0xA9 => Some(binary(0xA9, XOR, to_reg(A), reg(C), 1)),
        0xAA => Some(binary(0xAA, XOR, to_reg(A), reg(D), 1)),
        0xAB => Some(binary(0xAB, XOR, to_reg(A), reg(E), 1)),
        0xAC => Some(binary(0xAC, XOR, to_reg(A), reg(H), 1)),
        0xAD => Some(binary(0xAD, XOR, to_reg(A), reg(L), 1)),
        0xAE => Some(binary(0xAE, XOR, to_reg(A), mem(HL), 2)),
        0xAF => Some(binary(0xAF, XOR, to_reg(A), reg(A), 1)),
        0xB0 => Some(binary(0xB0, OR, to_reg(A), reg(B), 1)),
        0xB1 => Some(binary(0xB1, OR, to_reg(A), reg(C), 1)),
        0xB2 => Some(binary(0xB2, OR, to_reg(A), reg(D), 1)),
        0xB3 => Some(binary(0xB3, OR, to_reg(A), reg(E), 1)),
        0xB4 => Some(binary(0xB4, OR, to_reg(A), reg(H), 1)),
        0xB5 => Some(binary(0xB5, OR, to_reg(A), reg(L), 1)),
        0xB6 => Some(binary(0xB6, OR, to_reg(A), mem(HL), 2)),
        0xB7 => Some(binary(0xB7, OR, to_reg(A), reg(A), 1)),
        0xB8 => Some(binary(0xB8, CP, to_reg(A), reg(B), 1)),
        0xB9 => Some(binary(0xB9, CP, to_reg(A), reg(C), 1)),
        0xBA => Some(binary(0xBA, CP, to_reg(A), reg(D), 1)),
        0xBB => Some(binary(0xBB, CP, to_reg(A), reg(E), 1)),
        0xBC => Some(binary(0xBC, CP, to_reg(A), reg(H), 1)),
        0xBD => Some(binary(0xBD, CP, to_reg(A), reg(L), 1)),
        0xBE => Some(binary(0xBE, CP, to_reg(A), mem(HL), 2)),
        0xBF => Some(binary(0xBF, CP, to_reg(A), reg(A), 1)),
        _ => None,
    }
}

/// Entries 0xC0 to 0xFF of the first table.
#[verifier::rlimit(60)]
fn base_table_3(opcode: u8) -> (r: Option<InstructionInfo>)
    requires
        opcode / 64 == 3,
    ensures
        shape_of(r) == unprefixed(opcode),
{
    proof {
        reveal(unprefixed);
    }
    match opcode {
        0xC0 => Some(unary(0xC0, RET, when(Flag::Zero, false), 2)),
        0xC1 => Some(unary(0xC1, POP, to_reg(BC), 3)),
        0xC2 => Some(binary(0xC2, JP, when(Flag::Zero, false), imm16(), 3)),
        0xC3 => Some(unary(0xC3, JP, imm16(), 4)),
        0xC4 => Some(binary(0xC4, CALL, when(Flag::Zero, false), imm16(), 3)),
        0xC5 => Some(unary(0xC5, PUSH, reg(BC), 4)),
        0xC6 => Some(binary(0xC6, ADD, to_reg(A), imm8(), 2)),
        0xC7 => Some(unary(0xC7, RST, constant(0x00), 4)),
        0xC8 => Some(unary(0xC8, RET, when(Flag::Zero, true), 2)),
        0xC9 => Some(nullary(0xC9, RET, 4)),
        0xCA => Some(binary(0xCA, JP, when(Flag::Zero, true), imm16(), 3)),
        0xCB => Some(nullary(0xCB, Mnemonic::CB, 1)),
        0xCC => Some(binary(0xCC, CALL, when(Flag::Zero, true), imm16(), 3)),
        0xCD => Some(unary(0xCD, CALL, imm16(), 6)),
        0xCE => Some(binary(0xCE, ADC, to_reg(A), imm8(), 2)),
        0xCF => Some(unary(0xCF, RST, constant(0x08), 4)),
        0xD0 => Some(unary(0xD0, RET, when(Flag::Carry, false), 2)),
        0xD1 => Some(unary(0xD1, POP, to_reg(DE), 3)),
        0xD2 => Some(binary(0xD2, JP, when(Flag::Carry, false), imm16(), 3)),
        0xD3 => None,
        0xD4 => Some(binary(0xD4, CALL, when(Flag::Carry, false), imm16(), 3)),
        0xD5 => Some(unary(0xD5, PUSH, reg(DE), 4)),
        0xD6 => Some(binary(0xD6, SUB, to_reg(A), imm8(), 2)),
        0xD7 => Some(unary(0xD7, RST, constant(0x10), 4)),
        0xD8 => Some(unary(0xD8, RET, when(Flag::Carry, true), 2)),
        0xD9 => Some(nullary(0xD9, RETI, 4)),
        0xDA => Some(binary(0xDA, JP, when(Flag::Carry, true), imm16(), 3)),
        0xDB => None,
        0xDC => Some(binary(0xDC, CALL, when(Flag::Carry, true), imm16(), 3)),
        0xDD => None,
        0xDE => Some(binary(0xDE, SBC, to_reg(A), imm8(), 2)),
        0xDF => Some(unary(0xDF, RST, constant(0x18), 4)),
        0xE0 => Some(binary(0xE0, LD, to_high_mem_imm8(), reg(A), 3)),
        0xE1 => Some(unary(0xE1, POP, to_reg(HL), 3)),
        0xE2 => Some(binary(0xE2, LD, to_high_mem(C), reg(A), 2)),
        0xE3 => None,
        0xE4 => None,
        0xE5 => Some(unary(0xE5, PUSH, reg(HL), 4)),
        0xE6 => Some(binary(0xE6, AND, to_reg(A), imm8(), 2)),
        0xE7 => Some(unary(0xE7, RST, constant(0x20), 4)),
        0xE8 => Some(binary(0xE8, ADD, to_reg(SP), rel8(), 4)),
        0xE9 => Some(unary(0xE9, JP, reg(HL), 1)),
        0xEA => Some(binary(0xEA, LD, to_mem_imm16(), reg(A), 4)),
        0xEB => None,
        0xEC => None,
        0xED => None,
        0xEE => Some(binary(0xEE, XOR, to_reg(A), imm8(), 2)),
        0xEF => Some(unary(0xEF, RST, constant(0x28), 4)),
        0xF0 => Some(binary(0xF0, LD, to_reg(A), high_mem_imm8(), 3)),
        0xF1 => Some(unary(0xF1, POP, to_reg(AF), 3)),
        0xF2 => Some(binary(0xF2, LD, to_reg(A), high_mem(C), 2)),
        0xF3 => Some(nullary(0xF3, DI, 1)),
        0xF4 => None,
        0xF5 => Some(unary(0xF5, PUSH, reg(AF), 4)),
        0xF6 => Some(binary(0xF6, OR, to_reg(A), imm8(), 2)),
        0xF7 => Some(unary(0xF7, RST, constant(0x30), 4)),
        0xF8 => Some(binary(0xF8, LDHL, reg(SP), rel8(), 3)),
        0xF9 => Some(binary(0xF9, LD, to_reg(SP), reg(HL), 2)),
        0xFA => Some(binary(0xFA, LD, to_reg(A), mem_imm16(), 4)),
        0xFB => Some(nullary(0xFB, EI, 1)),
        0xFC => None,
        0xFD => None,
        0xFE => Some(binary(0xFE, CP, to_reg(A), imm8(), 2)),
        0xFF => Some(unary(0xFF, RST, constant(0x38), 4)),
        _ => None,
    }
}

/// Entries 0x00 to 0x3F of the second table.
#[verifier::rlimit(60)]
fn cb_table_0(opcode: u8) -> (r: InstructionInfo)
    requires
        opcode / 64 == 0,
    ensures
        r@ == prefixed(opcode),
{
    proof {
        reveal(prefixed);
    }
    match opcode {
        0x00 => unary(0x00, RLC, to_reg(B), 2),
        0x01 => unary(0x01, RLC, to_reg(C), 2),
        0x02 => unary(0x02, RLC, to_reg(D), 2),
        0x03 => unary(0x03, RLC, to_reg(E), 2),
        0x04 => unary(0x04, RLC, to_reg(H), 2),
        0x05 => unary(0x05, RLC, to_reg(L), 2),
        0x06 => unary(0x06, RLC, to_mem(HL), 4),
        0x07 => unary(0x07, RLC, to_reg(A), 2),
        0x08 => unary(0x08, RRC, to_reg(B), 2),
        0x09 => unary(0x09, RRC, to_reg(C), 2),
        0x0A => unary(0x0A, RRC, to_reg(D), 2),
        0x0B => unary(0x0B, RRC, to_reg(E), 2),
        0x0C => unary(0x0C, RRC, to_reg(H), 2),
        0x0D => unary(0x0D, RRC, to_reg(L), 2),
        0x0E => unary(0x0E, RRC, to_mem(HL), 4),
        0x0F => unary(0x0F, RRC, to_reg(A), 2),
        0x10 => unary(0x10, RL, to_reg(B), 2),
        0x11 => unary(0x11, RL, to_reg(C), 2),
        0x12 => unary(0x12, RL, to_reg(D), 2),
        0x13 => unary(0x13, RL, to_reg(E), 2),
        0x14 => unary(0x14, RL, to_reg(H), 2),
        0x15 => unary(0x15, RL, to_reg(L), 2),
        0x16 => unary(0x16, RL, to_mem(HL), 4),
        0x17 => unary(0x17, RL, to_reg(A), 2),
        0x18 => unary(0x18, RR, to_reg(B), 2),
        0x19 => unary(0x19, RR, to_reg(C), 2),
        0x1A => unary(0x1A, RR, to_reg(D), 2),
        0x1B => unary(0x1B, RR, to_reg(E), 2),
        0x1C => unary(0x1C, RR, to_reg(H), 2),
        0x1D => unary(0x1D, RR, to_reg(L), 2),
        0x1E => unary(0x1E, RR, to_mem(HL), 4),
        0x1F => unary(0x1F, RR, to_reg(A), 2),
        0x20 => unary(0x20, SLA, to_reg(B), 2),
        0x21 => unary(0x21, SLA, to_reg(C), 2),
        0x22 => unary(0x22, SLA, to_reg(D), 2),
        0x23 => unary(0x23, SLA, to_reg(E), 2),
        0x24 => unary(0x24, SLA, to_reg(H), 2),
        0x25 => unary(0x25, SLA, to_reg(L), 2),
        0x26 => unary(0x26, SLA, to_mem(HL), 4),
        0x27 => unary(0x27, SLA, to_reg(A), 2),
        0x28 => unary(0x28, SRA, to_reg(B), 2),
        0x29 => unary(0x29, SRA, to_reg(C), 2),
        0x2A => unary(0x2A, SRA, to_reg(D), 2),
        0x2B => unary(0x2B, SRA, to_reg(E), 2),
        0x2C => unary(0x2C, SRA, to_reg(H), 2),
        0x2D => unary(0x2D, SRA, to_reg(L), 2),
        0x2E => unary(0x2E, SRA, to_mem(HL), 4),
        0x2F => unary(0x2F, SRA, to_reg(A), 2),
        0x30 => unary(0x30, SWAP, to_reg(B), 2),
        0x31 => unary(0x31, SWAP, to_reg(C), 2),
        0x32 => unary(0x32, SWAP, to_reg(D), 2),
        0x33 => unary(0x33, SWAP, to_reg(E), 2),
        0x34 => unary(0x34, SWAP, to_reg(H), 2),
        0x35 => unary(0x35, SWAP, to_reg(L), 2),
        0x36 => unary(0x36, SWAP, to_mem(HL), 4),
        0x37 => unary(0x37, SWAP, to_reg(A), 2),
        0x38 => unary(0x38, SRL, to_reg(B), 2),
        0x39 => unary(0x39, SRL, to_reg(C), 2),
        0x3A => unary(0x3A, SRL, to_reg(D), 2),
        0x3B => unary(0x3B, SRL, to_reg(E), 2),
        0x3C => unary(0x3C, SRL, to_reg(H), 2),
        0x3D => unary(0x3D, SRL, to_reg(L), 2),
        0x3E => unary(0x3E, SRL, to_mem(HL), 4),
        _ => unary(0x3F, SRL, to_reg(A), 2),
    }
}

/// Entries 0x40 to 0x7F of the second table.
#[verifier::rlimit(60)]
fn cb_table_1(opcode: u8) -> (r: InstructionInfo)
    requires
        opcode / 64 == 1,
    ensures
        r@ == prefixed(opcode),
{
    proof {
        reveal(prefixed);
    }
    match opcode {
        0x40 => binary(0x40, BIT, constant(0), reg(B), 2),
        0x41 => binary(0x41, BIT, constant(0), reg(C), 2),
        0x42 => binary(0x42, BIT, constant(0), reg(D), 2),
        0x43 => binary(0x43, BIT, constant(0), reg(E), 2),
        0x44 => binary(0x44, BIT, constant(0), reg(H), 2),
        0x45 => binary(0x45, BIT, constant(0), reg(L), 2),
        0x46 => binary(0x46, BIT, constant(0), mem(HL), 3),
        0x47 => binary(0x47, BIT, constant(0), reg(A), 2),
        0x48 => binary(0x48, BIT, constant(1), reg(B), 2),
        0x49 => binary(0x49, BIT, constant(1), reg(C), 2),
        0x4A => binary(0x4A, BIT, constant(1), reg(D), 2),
        0x4B => binary(0x4B, BIT, constant(1), reg(E), 2),
        0x4C => binary(0x4C, BIT, constant(1), reg(H), 2),
        0x4D => binary(0x4D, BIT, constant(1), reg(L), 2),
        0x4E => binary(0x4E, BIT, constant(1), mem(HL), 3),
        0x4F => binary(0x4F, BIT, constant(1), reg(A), 2),
        0x50 => binary(0x50, BIT, constant(2), reg(B), 2),
        0x51 => binary(0x51, BIT, constant(2), reg(C), 2),
        0x52 => binary(0x52, BIT, constant(2), reg(D), 2),
        0x53 => binary(0x53, BIT, constant(2), reg(E), 2),
        0x54 => binary(0x54, BIT, constant(2), reg(H), 2),
        0x55 => binary(0x55, BIT, constant(2), reg(L), 2),
        0x56 => binary(0x56, BIT, constant(2), mem(HL), 3),
        0x57 => binary(0x57, BIT, constant(2), reg(A), 2),
        0x58 => binary(0x58, BIT, constant(3), reg(B), 2),
        0x59 => binary(0x59, BIT, constant(3), reg(C), 2),
        0x5A => binary(0x5A, BIT, constant(3), reg(D), 2),
        0x5B => binary(0x5B, BIT, constant(3), reg(E), 2),
        0x5C => binary(0x5C, BIT, constant(3), reg(H), 2),
        0x5D => binary(0x5D, BIT, constant(3), reg(L), 2),
        0x5E => binary(0x5E, BIT, constant(3), mem(HL), 3),
        0x5F => binary(0x5F, BIT, constant(3), reg(A), 2),
        0x60 => binary(0x60, BIT, constant(4), reg(B), 2),
        0x61 => binary(0x61, BIT, constant(4), reg(C), 2),
        0x62 => binary(0x62, BIT, constant(4), reg(D), 2),
        0x63 => binary(0x63, BIT, constant(4), reg(E), 2),
        0x64 => binary(0x64, BIT, constant(4), reg(H), 2),
        0x65 => binary(0x65, BIT, constant(4), reg(L), 2),
        0x66 => binary(0x66, BIT, constant(4), mem(HL), 3),
        0x67 => binary(0x67, BIT, constant(4), reg(A), 2),
        0x68 => binary(0x68, BIT, constant(5), reg(B), 2),
        0x69 => binary(0x69, BIT, constant(5), reg(C), 2),
        0x6A => binary(0x6A, BIT, constant(5), reg(D), 2),
        0x6B => binary(0x6B, BIT, constant(5), reg(E), 2),
        0x6C => binary(0x6C, BIT, constant(5), reg(H), 2),
        0x6D => binary(0x6D, BIT, constant(5), reg(L), 2),
        0x6E => binary(0x6E, BIT, constant(5), mem(HL), 3),
        0x6F => binary(0x6F, BIT, constant(5), reg(A), 2),
        0x70 => binary(0x70, BIT, constant(6), reg(B), 2),
        0x71 => binary(0x71, BIT, constant(6), reg(C), 2),
        0x72 => binary(0x72, BIT, constant(6), reg(D), 2),
        0x73 => binary(0x73, BIT, constant(6), reg(E), 2),
        0x74 => binary(0x74, BIT, constant(6), reg(H), 2),
        0x75 => binary(0x75, BIT, constant(6), reg(L), 2),
        0x76 => binary(0x76, BIT, constant(6), mem(HL), 3),
        0x77 => binary(0x77, BIT, constant(6), reg(A), 2),
        0x78 => binary(0x78, BIT, constant(7), reg(B), 2),
        0x79 => binary(0x79, BIT, constant(7), reg(C), 2),
        0x7A => binary(0x7A, BIT, constant(7), reg(D), 2),
        0x7B => binary(0x7B, BIT, constant(7), reg(E), 2),
        0x7C => binary(0x7C, BIT, constant(7), reg(H), 2),
        0x7D => binary(0x7D, BIT, constant(7), reg(L), 2),
        0x7E => binary(0x7E, BIT, constant(7), mem(HL), 3),
        _ => binary(0x7F, BIT, constant(7), reg(A), 2),
    }
}

/// Entries 0x80 to 0xBF of the second table.
#[verifier::rlimit(60)]
fn cb_table_2(opcode: u8) -> (r: InstructionInfo)
    requires
        opcode / 64 == 2,
    ensures
        r@ == prefixed(opcode),
{
    proof {
        reveal(prefixed);
    }
    match opcode {
        0x80 => binary(0x80, RES, constant(0), to_reg(B), 2),
        0x81 => binary(0x81, RES, constant(0), to_reg(C), 2),
        0x82 => binary(0x82, RES, constant(0), to_reg(D), 2),
        0x83 => binary(0x83, RES, constant(0), to_reg(E), 2),
        0x84 => binary(0x84, RES, constant(0), to_reg(H), 2),
        0x85 => binary(0x85, RES, constant(0), to_reg(L), 2),
        0x86 => binary(0x86, RES, constant(0), to_mem(HL), 4),
        0x87 => binary(0x87, RES, constant(0), to_reg(A), 2),
        0x88 => binary(0x88, RES, constant(1), to_reg(B), 2),
        0x89 => binary(0x89, RES, constant(1), to_reg(C), 2),
        0x8A => binary(0x8A, RES, constant(1), to_reg(D), 2),
        0x8B => binary(0x8B, RES, constant(1), to_reg(E), 2),
        0x8C => binary(0x8C, RES, constant(1), to_reg(H), 2),
        0x8D => binary(0x8D, RES, constant(1), to_reg(L), 2),
        0x8E => binary(0x8E, RES, constant(1), to_mem(HL), 4),
        0x8F => binary(0x8F, RES, constant(1), to_reg(A), 2),
        0x90 => binary(0x90, RES, constant(2), to_reg(B), 2),
        0x91 => binary(0x91, RES, constant(2), to_reg(C), 2),
        0x92 => binary(0x92, RES, constant(2), to_reg(D), 2),
        0x93 => binary(0x93, RES, constant(2), to_reg(E), 2),
        0x94 => binary(0x94, RES, constant(2), to_reg(H), 2),
        0x95 => binary(0x95, RES, constant(2), to_reg(L), 2),
        0x96 => binary(0x96, RES, constant(2), to_mem(HL), 4),
        0x97 => binary(0x97, RES, constant(2), to_reg(A), 2),
        0x98 => binary(0x98, RES, constant(3), to_reg(B), 2),
        0x99 => binary(0x99, RES, constant(3), to_reg(C), 2),
        0x9A => binary(0x9A, RES, constant(3), to_reg(D), 2),
        0x9B => binary(0x9B, RES, constant(3), to_reg(E), 2),
        0x9C => binary(0x9C, RES, constant(3), to_reg(H), 2),
        0x9D => binary(0x9D, RES, constant(3), to_reg(L), 2),
        0x9E => binary(0x9E, RES, constant(3), to_mem(HL), 4),
        0x9F => binary(0x9F, RES, constant(3), to_reg(A), 2),
        0xA0 => binary(0xA0, RES, constant(4), to_reg(B), 2),
        0xA1 => binary(0xA1, RES, constant(4), to_reg(C), 2),
        0xA2 => binary(0xA2, RES, constant(4), to_reg(D), 2),
        0xA3 => binary(0xA3, RES, constant(4), to_reg(E), 2),
        0xA4 => binary(0xA4, RES, constant(4), to_reg(H), 2),
        0xA5 => binary(0xA5, RES, constant(4), to_reg(L), 2),
        0xA6 => binary(0xA6, RES, constant(4), to_mem(HL), 4),
        0xA7 => binary(0xA7, RES, constant(4), to_reg(A), 2),
        0xA8 => binary(0xA8, RES, constant(5), to_reg(B), 2),
        0xA9 => binary(0xA9, RES, constant(5), to_reg(C), 2),
        0xAA => binary(0xAA, RES, constant(5), to_reg(D), 2),
        0xAB => binary(0xAB, RES, constant(5), to_reg(E), 2),
        0xAC => binary(0xAC, RES, constant(5), to_reg(H), 2),
        0xAD => binary(0xAD, RES, constant(5), to_reg(L), 2),
        0xAE => binary(0xAE, RES, constant(5), to_mem(HL), 4),
        0xAF => binary(0xAF, RES, constant(5), to_reg(A), 2),
        0xB0 => binary(0xB0, RES, constant(6), to_reg(B), 2),
        0xB1 => binary(0xB1, RES, constant(6), to_reg(C), 2),
        0xB2 => binary(0xB2, RES, constant(6), to_reg(D), 2),
        0xB3 => binary(0xB3, RES, constant(6), to_reg(E), 2),
        0xB4 => binary(0xB4, RES, constant(6), to_reg(H), 2),
        0xB5 => binary(0xB5, RES, constant(6), to_reg(L), 2),
        0xB6 => binary(0xB6, RES, constant(6), to_mem(HL), 4),
        0xB7 => binary(0xB7, RES, constant(6), to_reg(A), 2),
        0xB8 => binary(0xB8, RES, constant(7), to_reg(B), 2),
        0xB9 => binary(0xB9, RES, constant(7), to_reg(C), 2),
        0xBA => binary(0xBA, RES, constant(7), to_reg(D), 2),
        0xBB => binary(0xBB, RES, constant(7), to_reg(E), 2),
        0xBC => binary(0xBC, RES, constant(7), to_reg(H), 2),
        0xBD => binary(0xBD, RES, constant(7), to_reg(L), 2),
        0xBE => binary(0xBE, RES, constant(7), to_mem(HL), 4),
        _ => binary(0xBF, RES, constant(7), to_reg(A), 2),
    }
}

/// Entries 0xC0 to 0xFF of the second table.
#[verifier::rlimit(60)]
fn cb_table_3(opcode: u8) -> (r: InstructionInfo)
    requires
        opcode / 64 == 3,
    ensures
        r@ == prefixed(opcode),
{
    proof {
        reveal(prefixed);
    }
    match opcode {
        0xC0 => binary(0xC0, SET, constant(0), to_reg(B), 2),
        0xC1 => binary(0xC1, SET, constant(0), to_reg(C), 2),
        0xC2 => binary(0xC2, SET, constant(0), to_reg(D), 2),
        0xC3 => binary(0xC3, SET, constant(0), to_reg(E), 2),
        0xC4 => binary(0xC4, SET, constant(0), to_reg(H), 2),
        0xC5 => binary(0xC5, SET, constant(0), to_reg(L), 2),
        0xC6 => binary(0xC6, SET, constant(0), to_mem(HL), 4),
        0xC7 => binary(0xC7, SET, constant(0), to_reg(A), 2),
        0xC8 => binary(0xC8, SET, constant(1), to_reg(B), 2),
        0xC9 => binary(0xC9, SET, constant(1), to_reg(C), 2),
        0xCA => binary(0xCA, SET, constant(1), to_reg(D), 2),
        0xCB => binary(0xCB, SET, constant(1), to_reg(E), 2),
        0xCC => binary(0xCC, SET, constant(1), to_reg(H), 2),
        0xCD => binary(0xCD, SET, constant(1), to_reg(L), 2),
        0xCE => binary(0xCE, SET, constant(1), to_mem(HL), 4),
        0xCF => binary(0xCF, SET, constant(1), to_reg(A), 2),
        0xD0 => binary(0xD0, SET, constant(2), to_reg(B), 2),
        0xD1 => binary(0xD1, SET, constant(2), to_reg(C), 2),
        0xD2 => binary(0xD2, SET, constant(2), to_reg(D), 2),
        0xD3 => binary(0xD3, SET, constant(2), to_reg(E), 2),
        0xD4 => binary(0xD4, SET, constant(2), to_reg(H), 2),
        0xD5 => binary(0xD5, SET, constant(2), to_reg(L), 2),
        0xD6 => binary(0xD6, SET, constant(2), to_mem(HL), 4),
        0xD7 => binary(0xD7, SET, constant(2), to_reg(A), 2),
        0xD8 => binary(0xD8, SET, constant(3), to_reg(B), 2),
        0xD9 => binary(0xD9, SET, constant(3), to_reg(C), 2),
        0xDA => binary(0xDA, SET, constant(3), to_reg(D), 2),
        0xDB => binary(0xDB, SET, constant(3), to_reg(E), 2),
        0xDC => binary(0xDC, SET, constant(3), to_reg(H), 2),
        0xDD => binary(0xDD, SET, constant(3), to_reg(L), 2),
        0xDE => binary(0xDE, SET, constant(3), to_mem(HL), 4),
        0xDF => binary(0xDF, SET, constant(3), to_reg(A), 2),
        0xE0 => binary(0xE0, SET, constant(4), to_reg(B), 2),
        0xE1 => binary(0xE1, SET, constant(4), to_reg(C), 2),
        0xE2 => binary(0xE2, SET, constant(4), to_reg(D), 2),
        0xE3 => binary(0xE3, SET, constant(4), to_reg(E), 2),
        0xE4 => binary(0xE4, SET, constant(4), to_reg(H), 2),
        0xE5 => binary(0xE5, SET, constant(4), to_reg(L), 2),
        0xE6 => binary(0xE6, SET, constant(4), to_mem(HL), 4),
        0xE7 => binary(0xE7, SET, constant(4), to_reg(A), 2),
        0xE8 => binary(0xE8, SET, constant(5), to_reg(B), 2),
        0xE9 => binary(0xE9, SET, constant(5), to_reg(C), 2),
        0xEA => binary(0xEA, SET, constant(5), to_reg(D), 2),
        0xEB => binary(0xEB, SET, constant(5), to_reg(E), 2),
        0xEC => binary(0xEC, SET, constant(5), to_reg(H), 2),
        0xED => binary(0xED, SET, constant(5), to_reg(L), 2),
        0xEE => binary(0xEE, SET, constant(5), to_mem(HL), 4),
        0xEF => binary(0xEF, SET, constant(5), to_reg(A), 2),
        0xF0 => binary(0xF0, SET, constant(6), to_reg(B), 2),
        0xF1 => binary(0xF1, SET, constant(6), to_reg(C), 2),
        0xF2 => binary(0xF2, SET, constant(6), to_reg(D), 2),
        0xF3 => binary(0xF3, SET, constant(6), to_reg(E), 2),
        0xF4 => binary(0xF4, SET, constant(6), to_reg(H), 2),
        0xF5 => binary(0xF5, SET, constant(6), to_reg(L), 2),
        0xF6 => binary(0xF6, SET, constant(6), to_mem(HL), 4),
        0xF7 => binary(0xF7, SET, constant(6), to_reg(A), 2),
        0xF8 => binary(0xF8, SET, constant(7), to_reg(B), 2),
        0xF9 => binary(0xF9, SET, constant(7), to_reg(C), 2),
        0xFA => binary(0xFA, SET, constant(7), to_reg(D), 2),
        0xFB => binary(0xFB, SET, constant(7), to_reg(E), 2),
        0xFC => binary(0xFC, SET, constant(7), to_reg(H), 2),
        0xFD => binary(0xFD, SET, constant(7), to_reg(L), 2),
        0xFE => binary(0xFE, SET, constant(7), to_mem(HL), 4),
        _ => binary(0xFF, SET, constant(7), to_reg(A), 2),
    }
}

/// The two opcode tables.
pub struct Decoder {}

impl Decoder {
    /// Looks `opcode` up in the table that `prefix` selects. `None` means
    /// that the opcode stands for no instruction: in the first table that is
    /// so for the eleven illegal opcodes and for no other.
    pub fn decode_opcode(opcode: u8, prefix: Prefix) -> (r: Option<InstructionInfo>)
        ensures
            shape_of(r) == decoded(opcode, prefix),
            r is None <==> prefix == Prefix::Unprefixed && is_illegal(opcode),
    {
        proof {
            lemma_defined_opcodes(opcode);
        }
        match prefix {
            Prefix::Unprefixed => {
                if opcode < 0x40 {
                    base_table_0(opcode)
                } else if opcode < 0x80 {
                    base_table_1(opcode)
                } else if opcode < 0xC0 {
                    base_table_2(opcode)
                } else {
                    base_table_3(opcode)
                }
            },
            Prefix::CB => {
                if opcode < 0x40 {
                    Some(cb_table_0(opcode))
                } else if opcode < 0x80 {
                    Some(cb_table_1(opcode))
                } else if opcode < 0xC0 {
                    Some(cb_table_2(opcode))
                } else {
                    Some(cb_table_3(opcode))
                }
            },
        }
    }
}

} // verus!
