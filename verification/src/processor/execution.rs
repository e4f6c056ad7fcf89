//! The processor: fetch an opcode, decode it, resolve its operands, do what
//! the instruction says, and report how many machine cycles that took.
//!
//! `step_of` says what one step makes of the registers and the bus, as a
//! function of plain values; `Processor::step` is the code that runs, and
//! is proved to do exactly that.
use crate::bus::{Bus, Readable, Writable};
use crate::processor::alu;
use crate::processor::alu::{
    decimal_adjusted, decremented, difference_of, incremented, logic_flags, offset_sum_of,
    rotation_of, sum_of, tested, wide_sum_of, with_bit_set, Flags, Rotation,
};
use crate::processor::decoder::{decoded, entry_at, opcode_length, Decoder};
use crate::processor::flag_register::Flag;
use crate::processor::instruction::{
    operands_view, Mnemonic, Operand, Prefix, Reference, ValueType,
};
use crate::processor::operand_parser::{
    address_length, address_resolved, advanced, condition_resolved, value_length, value_resolved,
    OperandParser, ParserState,
};
use crate::processor::program_counter::ProgramCounter;
use crate::processor::register::Register;
use crate::processor::registers::{pair, RegisterFile, RegisterType, Registers};
use crate::util::bitflags::{BitMask, Bitflags};
use vstd::prelude::*;

verus! {

/// Why a step could not be taken.
#[derive(Copy, Clone, Debug, PartialEq, Eq, Structural)]
pub enum ProcessorError {
    /// The byte at `address` stands for no instruction.
    IllegalOpcode { opcode: u8, address: u16 },
    /// The operands of an instruction are not what its mnemonic works on.
    /// No entry of the opcode tables is like that.
    MalformedInstruction,
}

/// The processor: its registers, and the three signals that it raises for
/// whoever drives it.
pub struct Processor {
    pub registers: Registers,
    /// Set by HALT: the processor waits for an interrupt.
    pub halted: bool,
    /// Set by STOP: the processor waits for a button.
    pub stopped: bool,
    /// Set by EI and RETI, cleared by DI: interrupts are served.
    pub interrupts_enabled: bool,
}

/// The state of the processor, as plain values.
pub struct MachineState {
    pub registers: RegisterFile,
    pub halted: bool,
    pub stopped: bool,
    pub interrupts_enabled: bool,
}

impl View for Processor {
    type V = MachineState;

    open spec fn view(&self) -> MachineState {
        MachineState {
            registers: self.registers@,
            halted: self.halted,
            stopped: self.stopped,
            interrupts_enabled: self.interrupts_enabled,
        }
    }
}

/// A place that an instruction reads or writes, its address known.
#[derive(Copy, Clone, Debug, PartialEq, Eq, Structural)]
pub enum Place {
    Register(RegisterType),
    Memory(u16),
}

/// An operand, resolved.
#[derive(Copy, Clone, Debug, PartialEq, Eq, Structural)]
pub enum Resolved {
    /// A place. Nothing was read from it yet.
    Place(Place),
    /// A number, and whether it came from a source 16 bits wide.
    Value { number: u16, wide: bool },
    /// Whether a condition holds.
    Condition(bool),
}

/// Whether a value form is 16 bits wide.
pub open spec fn value_wide(value: ValueType) -> bool {
    match value {
        ValueType::Register(register) => register.wide(),
        ValueType::Immediate16 => true,
        _ => false,
    }
}

/// What an operand resolves to, given that its immediate bytes, if it has
/// any, are at the program counter of `parser`.
pub open spec fn resolved<P: ParserState, B: Readable>(parser: &P, bus: &B, operand: Operand)
    -> Resolved {
    match operand {
        Operand::Value(value) => Resolved::Value {
            number: value_resolved(parser, bus, value),
            wide: value_wide(value),
        },
        Operand::Condition(condition) => Resolved::Condition(condition_resolved(parser, condition)),
        Operand::Reference(Reference::Register(register)) => Resolved::Place(
            Place::Register(register),
        ),
        Operand::Reference(Reference::Address(address)) => Resolved::Place(
            Place::Memory(address_resolved(parser, bus, address)),
        ),
    }
}

/// The number of bytes of the instruction stream that an operand takes up.
pub open spec fn resolved_length(operand: Operand) -> int {
    match operand {
        Operand::Value(value) => value_length(value),
        Operand::Reference(Reference::Address(address)) => address_length(address),
        _ => 0,
    }
}

/// The first two operands of an instruction, resolved in order, and the
/// number of bytes that they take up.
pub open spec fn operands_resolved<P: ParserState, B: Readable>(
    parser: &P,
    bus: &B,
    operands: Option<Seq<Operand>>,
) -> (Option<Resolved>, Option<Resolved>, int) {
    match operands {
        Some(operands) => if operands.len() == 0 {
            (None, None, 0)
        } else if operands.len() == 1 {
            (Some(resolved(parser, bus, operands[0])), None, resolved_length(operands[0]))
        } else {
            let first = resolved_length(operands[0]);
            (
                Some(resolved(parser, bus, operands[0])),
                Some(
                    resolved(
                        &parser.with_counter(advanced(parser.counter(), first)),
                        bus,
                        operands[1],
                    ),
                ),
                first + resolved_length(operands[1]),
            )
        },
        None => (None, None, 0),
    }
}

/// The flags that the flags byte of `registers` holds.
pub open spec fn flags_of(registers: RegisterFile) -> Flags {
    Flags::of_byte(registers.f)
}

/// `registers` with the flags byte holding `flags`.
pub open spec fn with_flags(registers: RegisterFile, flags: Flags) -> RegisterFile {
    RegisterFile { f: flags.byte(), ..registers }
}

/// The byte that a place holds, or, for a 16-bit register, its value.
pub open spec fn place_read<B: Readable>(registers: RegisterFile, bus: &B, place: Place) -> u16 {
    match place {
        Place::Register(register) => registers.read(register),
        Place::Memory(address) => bus.byte_at(address) as u16,
    }
}

/// The registers and the bus after `number` is written to `place`. A wide
/// number written to memory takes two bytes, the low byte first.
pub open spec fn place_written<B: Writable>(
    registers: RegisterFile,
    bus: B,
    place: Place,
    number: u16,
    wide: bool,
) -> (RegisterFile, B) {
    match place {
        Place::Register(register) => (registers.write(register, number), bus),
        Place::Memory(address) => if wide {
            (
                registers,
                bus.after_write(address, (number % 256) as u8).after_write(
                    address.wrapping_add(1),
                    (number / 256) as u8,
                ),
            )
        } else {
            (registers, bus.after_write(address, (number % 256) as u8))
        },
    }
}

/// The registers and the bus after `number` is pushed on the stack: the
/// stack pointer moves two bytes down, and the number is stored where it
/// then points, low byte in front.
pub open spec fn pushed<B: Writable>(registers: RegisterFile, bus: B, number: u16) -> (
    RegisterFile,
    B,
) {
    (
        RegisterFile { sp: registers.sp.wrapping_sub(2), ..registers },
        bus.after_write(registers.sp.wrapping_sub(1), (number / 256) as u8).after_write(
            registers.sp.wrapping_sub(2),
            (number % 256) as u8,
        ),
    )
}

/// The number on top of the stack, and the registers after it is popped:
/// the stack pointer moves two bytes up.
pub open spec fn popped<B: Readable>(registers: RegisterFile, bus: &B) -> (u16, RegisterFile) {
    (
        pair(bus.byte_at(registers.sp.wrapping_add(1)), bus.byte_at(registers.sp)),
        RegisterFile { sp: registers.sp.wrapping_add(2), ..registers },
    )
}

/// What an instruction makes of the machine: the state and the bus
/// afterwards, and the machine cycles it took beyond its base count.
pub struct Outcome<B> {
    pub state: MachineState,
    pub bus: B,
    pub extra_cycles: u8,
}

/// The rotation or shift that a mnemonic stands for.
pub open spec fn rotation_named(mnemonic: Mnemonic) -> Option<Rotation> {
    match mnemonic {
        Mnemonic::RLCA | Mnemonic::RLC => Some(Rotation::LeftCircular),
        Mnemonic::RLA | Mnemonic::RL => Some(Rotation::Left),
        Mnemonic::RRCA | Mnemonic::RRC => Some(Rotation::RightCircular),
        Mnemonic::RRA | Mnemonic::RR => Some(Rotation::Right),
        Mnemonic::SLA => Some(Rotation::ShiftLeft),
        Mnemonic::SRA => Some(Rotation::ShiftRightArithmetic),
        Mnemonic::SRL => Some(Rotation::ShiftRightLogical),
        Mnemonic::SWAP => Some(Rotation::Swap),
        _ => None,
    }
}

/// What the arithmetic and logic instructions on the accumulator compute
/// from the accumulator, the operand and the flags: the new accumulator
/// and the new flags. CP computes the flags of a subtraction and leaves the
/// accumulator.
pub open spec fn accumulated(mnemonic: Mnemonic, a: u8, operand: u8, flags: Flags) -> Option<
    (u8, Flags),
> {
    match mnemonic {
        Mnemonic::ADD => Some(sum_of(a, operand, false)),
        Mnemonic::ADC => Some(sum_of(a, operand, flags.carry)),
        Mnemonic::SUB => Some(difference_of(a, operand, false)),
        Mnemonic::SBC => Some(difference_of(a, operand, flags.carry)),
        Mnemonic::AND => Some((a & operand, logic_flags(a & operand, true))),
        Mnemonic::XOR => Some((a ^ operand, logic_flags(a ^ operand, false))),
        Mnemonic::OR => Some((a | operand, logic_flags(a | operand, false))),
        Mnemonic::CP => Some((a, difference_of(a, operand, false).1)),
        _ => None,
    }
}

/// The 16-bit register that a place is, if it is one.
pub open spec fn wide_register(place: Place) -> Option<RegisterType> {
    match place {
        Place::Register(register) => if register.wide() {
            Some(register)
        } else {
            None
        },
        Place::Memory(_) => None,
    }
}

/// The low byte of a number.
pub open spec fn low(number: u16) -> u8 {
    (number % 256) as u8
}

/// What NOP, HALT, STOP, DI and EI make of the machine.
#[verifier::opaque]
pub open spec fn control_outcome<B: Bus>(
    state: MachineState,
    bus: B,
    mnemonic: Mnemonic,
    first: Option<Resolved>,
    second: Option<Resolved>,
) -> Outcome<B> {
    let registers = state.registers;
    let flags = flags_of(registers);
    let same = Outcome { state, bus, extra_cycles: 0 };
    match (mnemonic, first, second) {
        (Mnemonic::NOP, None, None) => same,
        (Mnemonic::HALT, None, None) => Outcome { state: MachineState { halted: true, ..state }, ..same },
        (Mnemonic::STOP, None, None) => Outcome { state: MachineState { stopped: true, ..state }, ..same },
        (Mnemonic::DI, None, None) => Outcome { state: MachineState { interrupts_enabled: false, ..state }, ..same },
        (Mnemonic::EI, None, None) => Outcome { state: MachineState { interrupts_enabled: true, ..state }, ..same },
        _ => same,
    }
}

/// What the loads and the stack instructions make of the machine. LDI and
/// LDD are loads that move HL one byte on, or back, afterwards. LDHL
/// loads HL with the sum of a number and a signed offset. PUSH and POP
/// move a 16-bit number to and from the stack.
#[verifier::opaque]
pub open spec fn load_outcome<B: Bus>(
    state: MachineState,
    bus: B,
    mnemonic: Mnemonic,
    first: Option<Resolved>,
    second: Option<Resolved>,
) -> Outcome<B> {
    let registers = state.registers;
    let flags = flags_of(registers);
    let same = Outcome { state, bus, extra_cycles: 0 };
    match (mnemonic, first, second) {
        (
            Mnemonic::LD | Mnemonic::LDI | Mnemonic::LDD,
            Some(Resolved::Place(place)),
            Some(Resolved::Value { number, wide }),
        ) => {
            let (loaded, bus) = place_written(registers, bus, place, number, wide);
            let pointer = loaded.read(RegisterType::HL);
            let registers = if mnemonic == Mnemonic::LDI {
                loaded.write(RegisterType::HL, pointer.wrapping_add(1))
            } else if mnemonic == Mnemonic::LDD {
                loaded.write(RegisterType::HL, pointer.wrapping_sub(1))
            } else {
                loaded
            };
            Outcome { state: MachineState { registers, ..state }, bus, extra_cycles: 0 }
        },
        (
            Mnemonic::LDHL,
            Some(Resolved::Value { number: base, .. }),
            Some(Resolved::Value { number: offset, .. }),
        ) => {
            let (sum, flags) = offset_sum_of(base, offset);
            Outcome {
                    state: MachineState {
                        registers: with_flags(registers.write(RegisterType::HL, sum), flags),
                        ..state
                    },
                    ..same
                }
        },
        (Mnemonic::PUSH, Some(Resolved::Value { number, .. }), None) => {
            let (registers, bus) = pushed(registers, bus, number);
            Outcome { state: MachineState { registers, ..state }, bus, extra_cycles: 0 }
        },
        (Mnemonic::POP, Some(Resolved::Place(Place::Register(register))), None) => {
            let (number, registers) = popped(registers, &bus);
            Outcome {
                    state: MachineState { registers: registers.write(register, number), ..state },
                    ..same
                }
        },
        _ => same,
    }
}

/// What the arithmetic and logic instructions make of the machine. ADD
/// adds a signed offset to SP, a 16-bit number to HL, or a byte to the
/// accumulator; the others work on the accumulator.
#[verifier::opaque]
pub open spec fn arithmetic_outcome<B: Bus>(
    state: MachineState,
    bus: B,
    mnemonic: Mnemonic,
    first: Option<Resolved>,
    second: Option<Resolved>,
) -> Outcome<B> {
    let registers = state.registers;
    let flags = flags_of(registers);
    let same = Outcome { state, bus, extra_cycles: 0 };
    match (mnemonic, first, second) {
        (
            Mnemonic::ADD,
            Some(Resolved::Place(Place::Register(RegisterType::SP))),
            Some(Resolved::Value { number, .. }),
        ) => {
            let (sum, flags) = offset_sum_of(registers.sp, number);
            Outcome {
                    state: MachineState {
                        registers: with_flags(registers.write(RegisterType::SP, sum), flags),
                        ..state
                    },
                    ..same
                }
        },
        (
            Mnemonic::ADD,
            Some(Resolved::Place(Place::Register(RegisterType::HL))),
            Some(Resolved::Value { number, .. }),
        ) => {
            let (sum, flags) = wide_sum_of(registers.read(RegisterType::HL), number, flags);
            Outcome {
                    state: MachineState {
                        registers: with_flags(registers.write(RegisterType::HL, sum), flags),
                        ..state
                    },
                    ..same
                }
        },
        (
            Mnemonic::ADD | Mnemonic::ADC | Mnemonic::SUB | Mnemonic::SBC | Mnemonic::AND
            | Mnemonic::XOR | Mnemonic::OR | Mnemonic::CP,
            Some(Resolved::Place(Place::Register(RegisterType::A))),
            Some(Resolved::Value { number, .. }),
        ) => {
            let (result, flags) = accumulated(mnemonic, registers.a, low(number), flags)->0;
            Outcome {
                    state: MachineState {
                        registers: with_flags(RegisterFile { a: result, ..registers }, flags),
                        ..state
                    },
                    ..same
                }
        },
        _ => same,
    }
}

/// What INC and DEC, DAA, CPL, CCF and SCF make of the machine. INC and
/// DEC of a 16-bit register leave the flags alone.
#[verifier::opaque]
pub open spec fn adjustment_outcome<B: Bus>(
    state: MachineState,
    bus: B,
    mnemonic: Mnemonic,
    first: Option<Resolved>,
    second: Option<Resolved>,
) -> Outcome<B> {
    let registers = state.registers;
    let flags = flags_of(registers);
    let same = Outcome { state, bus, extra_cycles: 0 };
    match (mnemonic, first, second) {
        (Mnemonic::INC | Mnemonic::DEC, Some(Resolved::Place(place)), None) => {
            let before = place_read(registers, &bus, place);
            match wide_register(place) {
                Some(register) => {
                    let after = if mnemonic == Mnemonic::INC {
                        before.wrapping_add(1)
                    } else {
                        before.wrapping_sub(1)
                    };
                    Outcome {
                            state: MachineState {
                                registers: registers.write(register, after),
                                ..state
                            },
                            ..same
                        }
                },
                None => {
                    let (after, flags) = if mnemonic == Mnemonic::INC {
                        incremented(low(before), flags)
                    } else {
                        decremented(low(before), flags)
                    };
                    let (registers, bus) = place_written(
                        registers,
                        bus,
                        place,
                        after as u16,
                        false,
                    );
                    Outcome {
                            state: MachineState {
                                registers: with_flags(registers, flags),
                                ..state
                            },
                            bus,
                            extra_cycles: 0,
                        }
                },
            }
        },
        (Mnemonic::DAA, None, None) => {
            let (result, flags) = decimal_adjusted(registers.a, flags);
            Outcome {
                    state: MachineState {
                        registers: with_flags(RegisterFile { a: result, ..registers }, flags),
                        ..state
                    },
                    ..same
                }
        },
        (Mnemonic::CPL, None, None) => Outcome {
                state: MachineState {
                    registers: with_flags(
                        RegisterFile { a: (255 - registers.a) as u8, ..registers },
                        Flags { subtract: true, half_carry: true, ..flags },
                    ),
                    ..state
                },
                ..same
            },
        (Mnemonic::CCF, None, None) => Outcome {
                state: MachineState {
                    registers: with_flags(
                        registers,
                        Flags { subtract: false, half_carry: false, carry: !flags.carry, ..flags },
                    ),
                    ..state
                },
                ..same
            },
        (Mnemonic::SCF, None, None) => Outcome {
                state: MachineState {
                    registers: with_flags(
                        registers,
                        Flags { subtract: false, half_carry: false, carry: true, ..flags },
                    ),
                    ..state
                },
                ..same
            },
        _ => same,
    }
}

/// What the rotations and shifts, BIT, SET and RES make of the machine.
#[verifier::opaque]
pub open spec fn bits_outcome<B: Bus>(
    state: MachineState,
    bus: B,
    mnemonic: Mnemonic,
    first: Option<Resolved>,
    second: Option<Resolved>,
) -> Outcome<B> {
    let registers = state.registers;
    let flags = flags_of(registers);
    let same = Outcome { state, bus, extra_cycles: 0 };
    match (mnemonic, first, second) {
        (Mnemonic::RLCA | Mnemonic::RLA | Mnemonic::RRCA | Mnemonic::RRA, None, None) => {
            let (result, flags) = rotation_of(
                rotation_named(mnemonic)->0,
                registers.a,
                flags.carry,
                false,
            );
            Outcome {
                    state: MachineState {
                        registers: with_flags(RegisterFile { a: result, ..registers }, flags),
                        ..state
                    },
                    ..same
                }
        },
        (
            Mnemonic::RLC | Mnemonic::RL | Mnemonic::RRC | Mnemonic::RR | Mnemonic::SLA
            | Mnemonic::SRA | Mnemonic::SRL | Mnemonic::SWAP,
            Some(Resolved::Place(place)),
            None,
        ) => {
            let (result, flags) = rotation_of(
                rotation_named(mnemonic)->0,
                low(place_read(registers, &bus, place)),
                flags.carry,
                true,
            );
            let (registers, bus) = place_written(registers, bus, place, result as u16, false);
            Outcome {
                    state: MachineState { registers: with_flags(registers, flags), ..state },
                    bus,
                    extra_cycles: 0,
                }
        },
        (
            Mnemonic::BIT,
            Some(Resolved::Value { number: index, .. }),
            Some(Resolved::Value { number, .. }),
        ) => Outcome {
                state: MachineState {
                    registers: with_flags(registers, tested(low(number), index as int, flags)),
                    ..state
                },
                ..same
            },
        (
            Mnemonic::SET | Mnemonic::RES,
            Some(Resolved::Value { number: index, .. }),
            Some(Resolved::Place(place)),
        ) => {
            let result = with_bit_set(
                low(place_read(registers, &bus, place)),
                index as int,
                mnemonic == Mnemonic::SET,
            );
            let (registers, bus) = place_written(registers, bus, place, result as u16, false);
            Outcome { state: MachineState { registers, ..state }, bus, extra_cycles: 0 }
        },
        _ => same,
    }
}

/// What the jumps, calls and returns make of the machine. A conditional
/// one whose condition does not hold does nothing; one whose condition
/// holds takes extra cycles. CALL and RST push the program counter.
/// RETI is a RET that enables interrupts.
#[verifier::opaque]
pub open spec fn jump_outcome<B: Bus>(
    state: MachineState,
    bus: B,
    mnemonic: Mnemonic,
    first: Option<Resolved>,
    second: Option<Resolved>,
) -> Outcome<B> {
    let registers = state.registers;
    let flags = flags_of(registers);
    let same = Outcome { state, bus, extra_cycles: 0 };
    match (mnemonic, first, second) {
        (Mnemonic::JP, Some(Resolved::Value { number, .. }), None) => Outcome {
                state: MachineState { registers: RegisterFile { pc: number, ..registers }, ..state },
                ..same
            },
        (
            Mnemonic::JP,
            Some(Resolved::Condition(holds)),
            Some(Resolved::Value { number, .. }),
        ) => if holds {
            Outcome {
                    state: MachineState {
                        registers: RegisterFile { pc: number, ..registers },
                        ..state
                    },
                    bus,
                    extra_cycles: 1,
                }
        } else {
            same
        },
        (Mnemonic::JR, Some(Resolved::Value { number, .. }), None) => Outcome {
                state: MachineState {
                    registers: RegisterFile { pc: registers.pc.wrapping_add(number), ..registers },
                    ..state
                },
                ..same
            },
        (
            Mnemonic::JR,
            Some(Resolved::Condition(holds)),
            Some(Resolved::Value { number, .. }),
        ) => if holds {
            Outcome {
                    state: MachineState {
                        registers: RegisterFile {
                            pc: registers.pc.wrapping_add(number),
                            ..registers
                        },
                        ..state
                    },
                    bus,
                    extra_cycles: 1,
                }
        } else {
            same
        },
        (Mnemonic::CALL | Mnemonic::RST, Some(Resolved::Value { number, .. }), None) => {
            let (registers, bus) = pushed(registers, bus, registers.pc);
            Outcome {
                    state: MachineState {
                        registers: RegisterFile { pc: number, ..registers },
                        ..state
                    },
                    bus,
                    extra_cycles: 0,
                }
        },
        (
            Mnemonic::CALL,
            Some(Resolved::Condition(holds)),
            Some(Resolved::Value { number, .. }),
        ) => if holds {
            let (registers, bus) = pushed(registers, bus, registers.pc);
            Outcome {
                    state: MachineState {
                        registers: RegisterFile { pc: number, ..registers },
                        ..state
                    },
                    bus,
                    extra_cycles: 3,
                }
        } else {
            same
        },
        (Mnemonic::RET | Mnemonic::RETI, None, None) => {
            let (number, registers) = popped(registers, &bus);
            Outcome {
                    state: MachineState {
                        registers: RegisterFile { pc: number, ..registers },
                        interrupts_enabled: state.interrupts_enabled || mnemonic == Mnemonic::RETI,
                        ..state
                    },
                    ..same
                }
        },
        (Mnemonic::RET, Some(Resolved::Condition(holds)), None) => if holds {
            let (number, registers) = popped(registers, &bus);
            Outcome {
                    state: MachineState {
                        registers: RegisterFile { pc: number, ..registers },
                        ..state
                    },
                    bus,
                    extra_cycles: 3,
                }
        } else {
            same
        },
        _ => same,
    }
}

/// What the instruction with mnemonic `mnemonic` and the resolved operands
/// `first` and `second` makes of the machine, where the operands are what
/// the mnemonic works on. The program counter of `state` is behind the
/// instruction.
pub open spec fn outcome_of<B: Bus>(
    state: MachineState,
    bus: B,
    mnemonic: Mnemonic,
    first: Option<Resolved>,
    second: Option<Resolved>,
) -> Outcome<B> {
    match mnemonic {
        Mnemonic::NOP | Mnemonic::HALT | Mnemonic::STOP | Mnemonic::DI | Mnemonic::EI => control_outcome(
            state,
            bus,
            mnemonic,
            first,
            second,
        ),
        Mnemonic::LD
        | Mnemonic::LDI
        | Mnemonic::LDD
        | Mnemonic::LDHL
        | Mnemonic::PUSH
        | Mnemonic::POP => load_outcome(state, bus, mnemonic, first, second),
        Mnemonic::ADD
        | Mnemonic::ADC
        | Mnemonic::SUB
        | Mnemonic::SBC
        | Mnemonic::AND
        | Mnemonic::XOR
        | Mnemonic::OR
        | Mnemonic::CP => arithmetic_outcome(state, bus, mnemonic, first, second),
        Mnemonic::INC
        | Mnemonic::DEC
        | Mnemonic::DAA
        | Mnemonic::CPL
        | Mnemonic::CCF
        | Mnemonic::SCF => adjustment_outcome(state, bus, mnemonic, first, second),
        Mnemonic::JP
        | Mnemonic::JR
        | Mnemonic::CALL
        | Mnemonic::RST
        | Mnemonic::RET
        | Mnemonic::RETI => jump_outcome(state, bus, mnemonic, first, second),
        _ => bits_outcome(state, bus, mnemonic, first, second),
    }
}

/// Whether the resolved operands `first` and `second` are what the
/// mnemonic works on.
pub open spec fn accepted(mnemonic: Mnemonic, first: Option<Resolved>, second: Option<Resolved>)
    -> bool {
    match (mnemonic, first, second) {
        (
            Mnemonic::NOP | Mnemonic::HALT | Mnemonic::STOP | Mnemonic::DI | Mnemonic::EI
            | Mnemonic::DAA | Mnemonic::CPL | Mnemonic::CCF | Mnemonic::SCF | Mnemonic::RLCA
            | Mnemonic::RLA | Mnemonic::RRCA | Mnemonic::RRA | Mnemonic::RET | Mnemonic::RETI,
            None,
            None,
        ) => true,
        (
            Mnemonic::LD | Mnemonic::LDI | Mnemonic::LDD,
            Some(Resolved::Place(_)),
            Some(Resolved::Value { .. }),
        ) => true,
        (
            Mnemonic::LDHL | Mnemonic::BIT,
            Some(Resolved::Value { .. }),
            Some(Resolved::Value { .. }),
        ) => true,
        (
            Mnemonic::PUSH | Mnemonic::JP | Mnemonic::JR | Mnemonic::CALL | Mnemonic::RST,
            Some(Resolved::Value { .. }),
            None,
        ) => true,
        (Mnemonic::POP, Some(Resolved::Place(Place::Register(_))), None) => true,
        (
            Mnemonic::ADD,
            Some(Resolved::Place(Place::Register(RegisterType::SP | RegisterType::HL))),
            Some(Resolved::Value { .. }),
        ) => true,
        (
            Mnemonic::ADD | Mnemonic::ADC | Mnemonic::SUB | Mnemonic::SBC | Mnemonic::AND
            | Mnemonic::XOR | Mnemonic::OR | Mnemonic::CP,
            Some(Resolved::Place(Place::Register(RegisterType::A))),
            Some(Resolved::Value { .. }),
        ) => true,
        (
            Mnemonic::INC | Mnemonic::DEC | Mnemonic::RLC | Mnemonic::RL | Mnemonic::RRC
            | Mnemonic::RR | Mnemonic::SLA | Mnemonic::SRA | Mnemonic::SRL | Mnemonic::SWAP,
            Some(Resolved::Place(_)),
            None,
        ) => true,
        (
            Mnemonic::SET | Mnemonic::RES,
            Some(Resolved::Value { .. }),
            Some(Resolved::Place(_)),
        ) => true,
        (
            Mnemonic::JP | Mnemonic::JR | Mnemonic::CALL,
            Some(Resolved::Condition(_)),
            Some(Resolved::Value { .. }),
        ) => true,
        (Mnemonic::RET, Some(Resolved::Condition(_)), None) => true,
        _ => false,
    }
}

/// What the instruction with mnemonic `mnemonic` and the resolved operands
/// `first` and `second` makes of the machine; `None` where the operands
/// are not what the mnemonic works on.
pub open spec fn effect<B: Bus>(
    state: MachineState,
    bus: B,
    mnemonic: Mnemonic,
    first: Option<Resolved>,
    second: Option<Resolved>,
) -> Option<Outcome<B>> {
    if accepted(mnemonic, first, second) {
        Some(outcome_of(state, bus, mnemonic, first, second))
    } else {
        None
    }
}

/// What one step makes of the machine: the state and the bus afterwards,
/// and the machine cycles it took.
pub struct StepOutcome<B> {
    pub state: MachineState,
    pub bus: B,
    pub cycles: u8,
}

/// What one step makes of `processor` and `bus`: the instruction at the
/// program counter is decoded, its operands are resolved in order, the
/// program counter moving past them, and the instruction takes effect.
/// `None` where the byte at the program counter stands for no instruction.
pub open spec fn step_of<B: Bus>(processor: Processor, bus: B) -> Option<StepOutcome<B>> {
    let start = processor.counter();
    match entry_at(&bus, start) {
        Some(shape) => {
            let fetched = processor.with_counter(advanced(start, opcode_length(&bus, start)));
            let (first, second, length) = operands_resolved(&fetched, &bus, shape.operands);
            let ready = fetched.with_counter(advanced(fetched.counter(), length));
            match effect(ready@, bus, shape.mnemonic, first, second) {
                Some(outcome) => Some(
                    StepOutcome {
                        state: outcome.state,
                        bus: outcome.bus,
                        cycles: (shape.cycle_count + outcome.extra_cycles) as u8,
                    },
                ),
                None => None,
            }
        },
        None => None,
    }
}

impl ParserState for Processor {
    open spec fn counter(&self) -> u16 {
        self.registers.program_counter@
    }

    open spec fn register_value(&self, register: RegisterType) -> u16 {
        self.registers@.read(register)
    }

    open spec fn flag_state(&self, flag: Flag) -> bool {
        self.registers.af.flags_value() & flag.mask() != 0
    }

    open spec fn with_counter(&self, counter: u16) -> Self {
        Processor {
            registers: Registers {
                program_counter: ProgramCounter::pointing_at(counter),
                ..self.registers
            },
            ..*self
        }
    }
}

impl OperandParser for Processor {
    proof fn lemma_with_counter(&self, first: u16, second: u16) {
        self.registers.program_counter.lemma_pointing_at(first);
        self.registers.program_counter.lemma_pointing_at(second);
    }

    fn mut_program_counter(&mut self) -> (program_counter: &mut ProgramCounter) {
        proof {
            assert forall|counter: ProgramCounter|
                counter == ProgramCounter::pointing_at(#[trigger] counter@) by {
                counter.lemma_pointing_at(0);
            }
        }
        &mut self.registers.program_counter
    }

    fn reg(&self, register: RegisterType) -> (r: u16) {
        self.registers.reg(register)
    }

    fn flag(&self, flag: Flag) -> (r: bool) {
        self.registers.af.contains_flag(flag)
    }
}

/// What an arithmetic or logic instruction on the accumulator computes.
fn accumulate(mnemonic: Mnemonic, a: u8, operand: u8, flags: Flags) -> (r: Option<(u8, Flags)>)
    ensures
        r == accumulated(mnemonic, a, operand, flags),
{
    match mnemonic {
        Mnemonic::ADD => Some(alu::add(a, operand, false)),
        Mnemonic::ADC => Some(alu::add(a, operand, flags.carry)),
        Mnemonic::SUB => Some(alu::subtract(a, operand, false)),
        Mnemonic::SBC => Some(alu::subtract(a, operand, flags.carry)),
        Mnemonic::AND => Some(alu::and(a, operand)),
        Mnemonic::XOR => Some(alu::xor(a, operand)),
        Mnemonic::OR => Some(alu::or(a, operand)),
        Mnemonic::CP => Some((a, alu::subtract(a, operand, false).1)),
        _ => None,
    }
}

/// The rotation or shift that a mnemonic stands for.
fn rotation_for(mnemonic: Mnemonic) -> (r: Option<Rotation>)
    ensures
        r == rotation_named(mnemonic),
{
    match mnemonic {
        Mnemonic::RLCA | Mnemonic::RLC => Some(Rotation::LeftCircular),
        Mnemonic::RLA | Mnemonic::RL => Some(Rotation::Left),
        Mnemonic::RRCA | Mnemonic::RRC => Some(Rotation::RightCircular),
        Mnemonic::RRA | Mnemonic::RR => Some(Rotation::Right),
        Mnemonic::SLA => Some(Rotation::ShiftLeft),
        Mnemonic::SRA => Some(Rotation::ShiftRightArithmetic),
        Mnemonic::SRL => Some(Rotation::ShiftRightLogical),
        Mnemonic::SWAP => Some(Rotation::Swap),
        _ => None,
    }
}

impl Processor {
    /// `self` with the registers holding `registers`.
    pub open spec fn holding(&self, registers: RegisterFile) -> MachineState {
        MachineState { registers, ..self@ }
    }

    /// A processor as it is after power-on.
    pub fn new() -> (r: Processor)
        ensures
            r.registers@ == (RegisterFile {
                a: 0x01,
                f: 0xB0,
                b: 0x00,
                c: 0x13,
                d: 0x00,
                e: 0xD8,
                h: 0x01,
                l: 0x4D,
                sp: 0xFFFE,
                pc: 0x0100,
            }),
            !r.halted,
            !r.stopped,
            !r.interrupts_enabled,
    {
        Processor {
            registers: Registers::new(),
            halted: false,
            stopped: false,
            interrupts_enabled: false,
        }
    }

    /// The flags.
    pub fn flags(&self) -> (r: Flags)
        ensures
            r == flags_of(self.registers@),
    {
        Flags::from_byte(self.registers.af.flags().byte())
    }

    /// Writes the flags.
    pub fn set_flags(&mut self, flags: Flags)
        ensures
            final(self)@ == old(self).holding(with_flags(old(self).registers@, flags)),
    {
        let byte: u8 = flags.to_byte();
        proof {
            crate::util::bits::lemma_nibbles(byte);
        }
        self.registers.af.set_flags(byte);
    }

    /// Writes the accumulator.
    fn set_accumulator(&mut self, value: u8)
        ensures
            final(self)@ == old(self).holding(RegisterFile { a: value, ..old(self).registers@ }),
    {
        self.registers.af.set_accumulator(value);
    }

    /// Reads a place: a register, or a byte of memory.
    pub fn read_place<B: Readable>(&self, bus: &B, place: Place) -> (r: u16)
        ensures
            r == place_read(self.registers@, bus, place),
    {
        match place {
            Place::Register(register) => self.registers.reg(register),
            Place::Memory(address) => {
                let byte: u8 = bus.read(address);
                byte as u16
            },
        }
    }

    /// Writes a place: a register, or one byte of memory, or, for a wide
    /// number, two.
    pub fn write_place<B: Writable>(&mut self, bus: &mut B, place: Place, number: u16, wide: bool)
        ensures
            final(self)@ == old(self).holding(
                place_written(old(self).registers@, *old(bus), place, number, wide).0,
            ),
            *final(bus) == place_written(old(self).registers@, *old(bus), place, number, wide).1,
    {
        proof {
            crate::util::bits::lemma_word_bytes(number);
        }
        match place {
            Place::Register(register) => self.registers.set_reg(register, number),
            Place::Memory(address) => {
                bus.write(address, (number & 0xFF) as u8);
                if wide {
                    bus.write(address.wrapping_add(1), (number >> 8) as u8);
                }
            },
        }
    }

    /// Pushes a number on the stack.
    pub fn push<B: Writable>(&mut self, bus: &mut B, number: u16)
        ensures
            final(self)@ == old(self).holding(pushed(old(self).registers@, *old(bus), number).0),
            *final(bus) == pushed(old(self).registers@, *old(bus), number).1,
    {
        proof {
            crate::util::bits::lemma_word_bytes(number);
        }
        let pointer: u16 = self.registers.stack_pointer.get();
        bus.write(pointer.wrapping_sub(1), (number >> 8) as u8);
        bus.write(pointer.wrapping_sub(2), (number & 0xFF) as u8);
        self.registers.stack_pointer.set(pointer.wrapping_sub(2));
    }

    /// Pops a number off the stack.
    pub fn pop<B: Readable>(&mut self, bus: &B) -> (r: u16)
        ensures
            r == popped(old(self).registers@, bus).0,
            final(self)@ == old(self).holding(popped(old(self).registers@, bus).1),
    {
        let pointer: u16 = self.registers.stack_pointer.get();
        let low_byte: u8 = bus.read(pointer);
        let high_byte: u8 = bus.read(pointer.wrapping_add(1));
        self.registers.stack_pointer.set(pointer.wrapping_add(2));
        proof {
            crate::processor::register::lemma_split_join(0, high_byte, low_byte);
        }
        ((high_byte as u16) << 8) | low_byte as u16
    }

    /// Resolves one operand. A value is read, a condition is tested; of a
    /// place only the address is worked out.
    pub fn resolve<B: Readable>(&mut self, bus: &B, operand: Operand) -> (r: Resolved)
        ensures
            r == resolved(old(self), bus, operand),
            *final(self) == old(self).with_counter(
                advanced(old(self).counter(), resolved_length(operand)),
            ),
    {
        proof {
            self.lemma_with_counter(self.counter(), self.counter());
        }
        match operand {
            Operand::Value(value) => {
                let number: u16 = self.operand_value(bus, value);
                let wide: bool = match value {
                    ValueType::Register(register) => register.is16bit(),
                    ValueType::Immediate16 => true,
                    _ => false,
                };
                Resolved::Value { number, wide }
            },
            Operand::Condition(condition) => Resolved::Condition(self.operand_condition(condition)),
            Operand::Reference(Reference::Register(register)) => Resolved::Place(
                Place::Register(register),
            ),
            Operand::Reference(Reference::Address(address)) => {
                let resolved: u16 = self.operand_address(bus, address);
                Resolved::Place(Place::Memory(resolved))
            },
        }
    }
}

/// Whether running an instruction left the machine as `effect` says, and
/// gave the result that goes with it: the extra cycles, or, where the
/// operands are not what the mnemonic works on, an error, with nothing
/// changed.
pub open spec fn ran<B: Bus>(
    before: MachineState,
    bus_before: B,
    mnemonic: Mnemonic,
    first: Option<Resolved>,
    second: Option<Resolved>,
    after: MachineState,
    bus_after: B,
    result: Result<u8, ProcessorError>,
) -> bool {
    match effect(before, bus_before, mnemonic, first, second) {
        Some(outcome) => result == Ok::<u8, ProcessorError>(outcome.extra_cycles) && after
            == outcome.state && bus_after == outcome.bus,
        None => result == Err::<u8, ProcessorError>(ProcessorError::MalformedInstruction) && after
            == before && bus_after == bus_before,
    }
}

impl Processor {
    /// The instructions that wait, stop, or switch interrupts.
    fn run_control(&mut self, mnemonic: Mnemonic) -> (r: Result<u8, ProcessorError>)
        ensures
            final(self)@ == match mnemonic {
                Mnemonic::HALT => MachineState { halted: true, ..old(self)@ },
                Mnemonic::STOP => MachineState { stopped: true, ..old(self)@ },
                Mnemonic::DI => MachineState { interrupts_enabled: false, ..old(self)@ },
                Mnemonic::EI => MachineState { interrupts_enabled: true, ..old(self)@ },
                _ => old(self)@,
            },
            r == match mnemonic {
                Mnemonic::NOP | Mnemonic::HALT | Mnemonic::STOP | Mnemonic::DI | Mnemonic::EI => Ok::<
                    u8,
                    ProcessorError,
                >(0),
                _ => Err::<u8, ProcessorError>(ProcessorError::MalformedInstruction),
            },
    {
        match mnemonic {
            Mnemonic::NOP => {},
            Mnemonic::HALT => {
                self.halted = true;
            },
            Mnemonic::STOP => {
                self.stopped = true;
            },
            Mnemonic::DI => {
                self.interrupts_enabled = false;
            },
            Mnemonic::EI => {
                self.interrupts_enabled = true;
            },
            _ => {
                return Err(ProcessorError::MalformedInstruction);
            },
        }
        Ok(0)
    }

    /// The loads and the stack.
    fn run_load<B: Bus>(
        &mut self,
        bus: &mut B,
        mnemonic: Mnemonic,
        first: Option<Resolved>,
        second: Option<Resolved>,
    ) -> (r: Result<u8, ProcessorError>)
        requires
            mnemonic == Mnemonic::LD || mnemonic == Mnemonic::LDI || mnemonic == Mnemonic::LDD
                || mnemonic == Mnemonic::LDHL || mnemonic == Mnemonic::PUSH || mnemonic
                == Mnemonic::POP,
        ensures
            ran(old(self)@, *old(bus), mnemonic, first, second, final(self)@, *final(bus), r),
    {
        proof {
            reveal(load_outcome);
        }
        match (mnemonic, first, second) {
            (
                Mnemonic::LD | Mnemonic::LDI | Mnemonic::LDD,
                Some(Resolved::Place(place)),
                Some(Resolved::Value { number, wide }),
            ) => {
                self.write_place(bus, place, number, wide);
                if mnemonic == Mnemonic::LDI {
                    let pointer: u16 = self.registers.reg(RegisterType::HL);
                    self.registers.set_reg(RegisterType::HL, pointer.wrapping_add(1));
                } else if mnemonic == Mnemonic::LDD {
                    let pointer: u16 = self.registers.reg(RegisterType::HL);
                    self.registers.set_reg(RegisterType::HL, pointer.wrapping_sub(1));
                }
                Ok(0)
            },
            (
                Mnemonic::LDHL,
                Some(Resolved::Value { number: base, wide: _ }),
                Some(Resolved::Value { number: offset, wide: _ }),
            ) => {
                let (sum, flags) = alu::add_offset(base, offset);
                self.registers.set_reg(RegisterType::HL, sum);
                self.set_flags(flags);
                Ok(0)
            },
            (Mnemonic::PUSH, Some(Resolved::Value { number, wide: _ }), None) => {
                self.push(bus, number);
                Ok(0)
            },
            (Mnemonic::POP, Some(Resolved::Place(Place::Register(register))), None) => {
                let number: u16 = self.pop(bus);
                self.registers.set_reg(register, number);
                Ok(0)
            },
            _ => Err(ProcessorError::MalformedInstruction),
        }
    }

    /// The arithmetic and the logic.
    fn run_arithmetic<B: Bus>(
        &mut self,
        bus: &mut B,
        mnemonic: Mnemonic,
        first: Option<Resolved>,
        second: Option<Resolved>,
    ) -> (r: Result<u8, ProcessorError>)
        requires
            mnemonic == Mnemonic::ADD || mnemonic == Mnemonic::ADC || mnemonic == Mnemonic::SUB
                || mnemonic == Mnemonic::SBC || mnemonic == Mnemonic::AND || mnemonic
                == Mnemonic::XOR || mnemonic == Mnemonic::OR || mnemonic == Mnemonic::CP,
        ensures
            ran(old(self)@, *old(bus), mnemonic, first, second, final(self)@, *final(bus), r),
    {
        proof {
            reveal(arithmetic_outcome);
        }
        let flags: Flags = self.flags();
        let a: u8 = self.registers.af.accumulator().byte();
        match (mnemonic, first, second) {
            (
                Mnemonic::ADD,
                Some(Resolved::Place(Place::Register(RegisterType::SP))),
                Some(Resolved::Value { number, wide: _ }),
            ) => {
                let (sum, flags) = alu::add_offset(self.registers.reg(RegisterType::SP), number);
                self.registers.set_reg(RegisterType::SP, sum);
                self.set_flags(flags);
                Ok(0)
            },
            (
                Mnemonic::ADD,
                Some(Resolved::Place(Place::Register(RegisterType::HL))),
                Some(Resolved::Value { number, wide: _ }),
            ) => {
                let (sum, flags) = alu::add_wide(
                    self.registers.reg(RegisterType::HL),
                    number,
                    flags,
                );
                self.registers.set_reg(RegisterType::HL, sum);
                self.set_flags(flags);
                Ok(0)
            },
            (
                Mnemonic::ADD | Mnemonic::ADC | Mnemonic::SUB | Mnemonic::SBC | Mnemonic::AND
                | Mnemonic::XOR | Mnemonic::OR | Mnemonic::CP,
                Some(Resolved::Place(Place::Register(RegisterType::A))),
                Some(Resolved::Value { number, wide: _ }),
            ) => {
                proof {
                    crate::util::bits::lemma_word_fields(number);
                }
                let operand: u8 = (number & 0xFF) as u8;
                match accumulate(mnemonic, a, operand, flags) {
                    Some((result, flags)) => {
                        self.set_accumulator(result);
                        self.set_flags(flags);
                        Ok(0)
                    },
                    None => Err(ProcessorError::MalformedInstruction),
                }
            },
            _ => Err(ProcessorError::MalformedInstruction),
        }
    }


    /// The increments and decrements, and the adjustments of the
    /// accumulator and the flags.
    fn run_adjustment<B: Bus>(
        &mut self,
        bus: &mut B,
        mnemonic: Mnemonic,
        first: Option<Resolved>,
        second: Option<Resolved>,
    ) -> (r: Result<u8, ProcessorError>)
        requires
            mnemonic == Mnemonic::INC || mnemonic == Mnemonic::DEC || mnemonic == Mnemonic::DAA
                || mnemonic == Mnemonic::CPL || mnemonic == Mnemonic::CCF || mnemonic
                == Mnemonic::SCF,
        ensures
            ran(old(self)@, *old(bus), mnemonic, first, second, final(self)@, *final(bus), r),
    {
        proof {
            reveal(adjustment_outcome);
        }
        let flags: Flags = self.flags();
        let a: u8 = self.registers.af.accumulator().byte();
        match (mnemonic, first, second) {
            (Mnemonic::INC | Mnemonic::DEC, Some(Resolved::Place(place)), None) => {
                let before: u16 = self.read_place(bus, place);
                let wide: Option<RegisterType> = match place {
                    Place::Register(register) => if register.is16bit() {
                        Some(register)
                    } else {
                        None
                    },
                    Place::Memory(_) => None,
                };
                match wide {
                    Some(register) => {
                        let after: u16 = if mnemonic == Mnemonic::INC {
                            before.wrapping_add(1)
                        } else {
                            before.wrapping_sub(1)
                        };
                        self.registers.set_reg(register, after);
                    },
                    None => {
                        proof {
                            crate::util::bits::lemma_word_fields(before);
                        }
                        let byte: u8 = (before & 0xFF) as u8;
                        let (after, flags) = if mnemonic == Mnemonic::INC {
                            alu::increment(byte, flags)
                        } else {
                            alu::decrement(byte, flags)
                        };
                        self.write_place(bus, place, after as u16, false);
                        self.set_flags(flags);
                    },
                }
                Ok(0)
            },
            (Mnemonic::DAA, None, None) => {
                let (result, flags) = alu::decimal_adjust(a, flags);
                self.set_accumulator(result);
                self.set_flags(flags);
                Ok(0)
            },
            (Mnemonic::CPL, None, None) => {
                assert(!a == 255 - a) by (bit_vector);
                self.set_accumulator(!a);
                self.set_flags(
                    Flags {
                        zero: flags.zero,
                        subtract: true,
                        half_carry: true,
                        carry: flags.carry,
                    },
                );
                Ok(0)
            },
            (Mnemonic::CCF, None, None) => {
                self.set_flags(
                    Flags {
                        zero: flags.zero,
                        subtract: false,
                        half_carry: false,
                        carry: !flags.carry,
                    },
                );
                Ok(0)
            },
            (Mnemonic::SCF, None, None) => {
                self.set_flags(
                    Flags { zero: flags.zero, subtract: false, half_carry: false, carry: true },
                );
                Ok(0)
            },
            _ => Err(ProcessorError::MalformedInstruction),
        }
    }

    /// The rotations, the shifts, and the instructions on single bits.
    fn run_bits<B: Bus>(
        &mut self,
        bus: &mut B,
        mnemonic: Mnemonic,
        first: Option<Resolved>,
        second: Option<Resolved>,
    ) -> (r: Result<u8, ProcessorError>)
        requires
            rotation_named(mnemonic) is Some || mnemonic == Mnemonic::BIT || mnemonic
                == Mnemonic::SET || mnemonic == Mnemonic::RES,
        ensures
            ran(old(self)@, *old(bus), mnemonic, first, second, final(self)@, *final(bus), r),
    {
        proof {
            reveal(bits_outcome);
        }
        let flags: Flags = self.flags();
        match (mnemonic, first, second) {
            (Mnemonic::RLCA | Mnemonic::RLA | Mnemonic::RRCA | Mnemonic::RRA, None, None) => {
                let a: u8 = self.registers.af.accumulator().byte();
                match rotation_for(mnemonic) {
                    Some(rotation) => {
                        let (result, flags) = alu::rotate(rotation, a, flags.carry, false);
                        self.set_accumulator(result);
                        self.set_flags(flags);
                        Ok(0)
                    },
                    None => Err(ProcessorError::MalformedInstruction),
                }
            },
            (
                Mnemonic::RLC | Mnemonic::RL | Mnemonic::RRC | Mnemonic::RR | Mnemonic::SLA
                | Mnemonic::SRA | Mnemonic::SRL | Mnemonic::SWAP,
                Some(Resolved::Place(place)),
                None,
            ) => {
                let before: u16 = self.read_place(bus, place);
                proof {
                    crate::util::bits::lemma_word_fields(before);
                }
                match rotation_for(mnemonic) {
                    Some(rotation) => {
                        let (result, flags) = alu::rotate(
                            rotation,
                            (before & 0xFF) as u8,
                            flags.carry,
                            true,
                        );
                        self.write_place(bus, place, result as u16, false);
                        self.set_flags(flags);
                        Ok(0)
                    },
                    None => Err(ProcessorError::MalformedInstruction),
                }
            },
            (
                Mnemonic::BIT,
                Some(Resolved::Value { number: index, wide: _ }),
                Some(Resolved::Value { number, wide: _ }),
            ) => {
                proof {
                    crate::util::bits::lemma_word_fields(number);
                }
                self.set_flags(alu::test_bit((number & 0xFF) as u8, index, flags));
                Ok(0)
            },
            (
                Mnemonic::SET | Mnemonic::RES,
                Some(Resolved::Value { number: index, wide: _ }),
                Some(Resolved::Place(place)),
            ) => {
                let before: u16 = self.read_place(bus, place);
                proof {
                    crate::util::bits::lemma_word_fields(before);
                }
                let result: u8 = alu::change_bit(
                    (before & 0xFF) as u8,
                    index,
                    mnemonic == Mnemonic::SET,
                );
                self.write_place(bus, place, result as u16, false);
                Ok(0)
            },
            _ => Err(ProcessorError::MalformedInstruction),
        }
    }

    /// The jumps, the calls and the returns.
    fn run_jump<B: Bus>(
        &mut self,
        bus: &mut B,
        mnemonic: Mnemonic,
        first: Option<Resolved>,
        second: Option<Resolved>,
    ) -> (r: Result<u8, ProcessorError>)
        requires
            mnemonic == Mnemonic::JP || mnemonic == Mnemonic::JR || mnemonic == Mnemonic::CALL
                || mnemonic == Mnemonic::RST || mnemonic == Mnemonic::RET || mnemonic
                == Mnemonic::RETI,
        ensures
            ran(old(self)@, *old(bus), mnemonic, first, second, final(self)@, *final(bus), r),
    {
        proof {
            reveal(jump_outcome);
        }
        let counter: u16 = self.registers.program_counter.get();
        match (mnemonic, first, second) {
            (Mnemonic::JP, Some(Resolved::Value { number, wide: _ }), None) => {
                self.registers.program_counter.set(number);
                Ok(0)
            },
            (
                Mnemonic::JP,
                Some(Resolved::Condition(holds)),
                Some(Resolved::Value { number, wide: _ }),
            ) => {
                if holds {
                    self.registers.program_counter.set(number);
                    Ok(1)
                } else {
                    Ok(0)
                }
            },
            (Mnemonic::JR, Some(Resolved::Value { number, wide: _ }), None) => {
                self.registers.program_counter.set(counter.wrapping_add(number));
                Ok(0)
            },
            (
                Mnemonic::JR,
                Some(Resolved::Condition(holds)),
                Some(Resolved::Value { number, wide: _ }),
            ) => {
                if holds {
                    self.registers.program_counter.set(counter.wrapping_add(number));
                    Ok(1)
                } else {
                    Ok(0)
                }
            },
            (Mnemonic::CALL | Mnemonic::RST, Some(Resolved::Value { number, wide: _ }), None) => {
                self.push(bus, counter);
                self.registers.program_counter.set(number);
                Ok(0)
            },
            (
                Mnemonic::CALL,
                Some(Resolved::Condition(holds)),
                Some(Resolved::Value { number, wide: _ }),
            ) => {
                if holds {
                    self.push(bus, counter);
                    self.registers.program_counter.set(number);
                    Ok(3)
                } else {
                    Ok(0)
                }
            },
            (Mnemonic::RET | Mnemonic::RETI, None, None) => {
                let number: u16 = self.pop(bus);
                self.registers.program_counter.set(number);
                if mnemonic == Mnemonic::RETI {
                    self.interrupts_enabled = true;
                }
                Ok(0)
            },
            (Mnemonic::RET, Some(Resolved::Condition(holds)), None) => {
                if holds {
                    let number: u16 = self.pop(bus);
                    self.registers.program_counter.set(number);
                    Ok(3)
                } else {
                    Ok(0)
                }
            },
            _ => Err(ProcessorError::MalformedInstruction),
        }
    }

    /// Does what the instruction with mnemonic `mnemonic` and the resolved
    /// operands `first` and `second` says, the program counter being
    /// behind the instruction. Returns the machine cycles that this took
    /// beyond the base count of the instruction.
    pub fn execute<B: Bus>(
        &mut self,
        bus: &mut B,
        mnemonic: Mnemonic,
        first: Option<Resolved>,
        second: Option<Resolved>,
    ) -> (r: Result<u8, ProcessorError>)
        ensures
            ran(old(self)@, *old(bus), mnemonic, first, second, final(self)@, *final(bus), r),
    {
        match mnemonic {
            Mnemonic::NOP | Mnemonic::HALT | Mnemonic::STOP | Mnemonic::DI | Mnemonic::EI => {
                proof {
                    reveal(control_outcome);
                }
                if first.is_none() && second.is_none() {
                    self.run_control(mnemonic)
                } else {
                    Err(ProcessorError::MalformedInstruction)
                }
            },
            Mnemonic::LD
            | Mnemonic::LDI
            | Mnemonic::LDD
            | Mnemonic::LDHL
            | Mnemonic::PUSH
            | Mnemonic::POP => self.run_load(bus, mnemonic, first, second),
            Mnemonic::ADD
            | Mnemonic::ADC
            | Mnemonic::SUB
            | Mnemonic::SBC
            | Mnemonic::AND
            | Mnemonic::XOR
            | Mnemonic::OR
            | Mnemonic::CP => self.run_arithmetic(bus, mnemonic, first, second),
            Mnemonic::INC
            | Mnemonic::DEC
            | Mnemonic::DAA
            | Mnemonic::CPL
            | Mnemonic::CCF
            | Mnemonic::SCF => self.run_adjustment(bus, mnemonic, first, second),
            Mnemonic::JP
            | Mnemonic::JR
            | Mnemonic::CALL
            | Mnemonic::RST
            | Mnemonic::RET
            | Mnemonic::RETI => self.run_jump(bus, mnemonic, first, second),
            Mnemonic::CB => Err(ProcessorError::MalformedInstruction),
            _ => self.run_bits(bus, mnemonic, first, second),
        }
    }
}

/// A branch taken takes at most three machine cycles more than one not
/// taken, and nothing else takes more than its base count.
pub proof fn lemma_extra_cycles<B: Bus>(
    state: MachineState,
    bus: B,
    mnemonic: Mnemonic,
    first: Option<Resolved>,
    second: Option<Resolved>,
)
    ensures
        outcome_of(state, bus, mnemonic, first, second).extra_cycles <= 3,
{
    reveal(control_outcome);
    reveal(load_outcome);
    reveal(arithmetic_outcome);
    reveal(adjustment_outcome);
    reveal(bits_outcome);
    reveal(jump_outcome);
}

/// The kind of thing that an operand resolves to, whatever the state of
/// the machine: a register, a byte of memory, a number, or a truth value.
pub open spec fn shape_of(operand: Operand) -> Resolved {
    match operand {
        Operand::Value(value) => Resolved::Value { number: 0, wide: value_wide(value) },
        Operand::Condition(_) => Resolved::Condition(true),
        Operand::Reference(Reference::Register(register)) => Resolved::Place(
            Place::Register(register),
        ),
        Operand::Reference(Reference::Address(_)) => Resolved::Place(Place::Memory(0)),
    }
}

/// The first two of the operands, each as the kind of thing it resolves
/// to.
pub open spec fn shapes_of(operands: Option<Seq<Operand>>) -> (Option<Resolved>, Option<Resolved>) {
    match operands {
        Some(operands) => if operands.len() == 0 {
            (None, None)
        } else if operands.len() == 1 {
            (Some(shape_of(operands[0])), None)
        } else {
            (Some(shape_of(operands[0])), Some(shape_of(operands[1])))
        },
        None => (None, None),
    }
}

/// Whether an instruction is accepted depends on the kinds of its
/// operands alone, not on what they resolve to.
pub proof fn lemma_accepted_by_shape<B: Bus>(
    mnemonic: Mnemonic,
    operands: Option<Seq<Operand>>,
    processor: Processor,
    bus: B,
)
    ensures
        accepted(
            mnemonic,
            operands_resolved(&processor, &bus, operands).0,
            operands_resolved(&processor, &bus, operands).1,
        ) == accepted(mnemonic, shapes_of(operands).0, shapes_of(operands).1),
{
}

/// Every entry of the opcode tables but the escape is an instruction that
/// the processor can run: its operands are what its mnemonic works on. No
/// entry takes more than six machine cycles before the cycles of a branch
/// taken, and the escape is in the first table only.
pub proof fn lemma_entries_run(opcode: u8, prefix: Prefix)
    ensures
        decoded(opcode, prefix) matches Some(shape) ==> shape.cycle_count <= 6 && (shape.mnemonic
            != Mnemonic::CB ==> accepted(
            shape.mnemonic,
            shapes_of(shape.operands).0,
            shapes_of(shape.operands).1,
        )),
        prefix == Prefix::CB ==> decoded(opcode, prefix)->0.mnemonic != Mnemonic::CB,
{
    reveal(crate::processor::decoder::unprefixed);
    reveal(crate::processor::decoder::prefixed);
}

impl Processor {
    /// Resolves the operands of an instruction in order, the first
    /// immediate byte being at the program counter, and leaves the program
    /// counter behind the last. `None` where there are more than two
    /// operands, which no instruction has.
    pub fn resolve_operands<B: Readable>(
        &mut self,
        bus: &B,
        operands: &Option<Vec<Operand>>,
    ) -> (r: Option<(Option<Resolved>, Option<Resolved>)>)
        ensures
            match *operands {
                Some(list) => list@.len() <= 2,
                None => true,
            } ==> r == Some(
                (
                    operands_resolved(old(self), bus, operands_view(*operands)).0,
                    operands_resolved(old(self), bus, operands_view(*operands)).1,
                ),
            ) && *final(self) == old(self).with_counter(
                advanced(
                    old(self).counter(),
                    operands_resolved(old(self), bus, operands_view(*operands)).2,
                ),
            ),
            match *operands {
                Some(list) => list@.len() > 2,
                None => false,
            } ==> r is None && *final(self) == *old(self),
    {
        proof {
            self.lemma_with_counter(self.counter(), self.counter());
        }
        match operands {
            None => Some((None, None)),
            Some(list) => {
                if list.len() == 0 {
                    Some((None, None))
                } else if list.len() == 1 {
                    let first = self.resolve(bus, list[0]);
                    Some((Some(first), None))
                } else if list.len() == 2 {
                    proof {
                        let middle = advanced(self.counter(), resolved_length(list@[0]));
                        self.lemma_with_counter(
                            middle,
                            advanced(middle, resolved_length(list@[1])),
                        );
                        self.lemma_with_counter(middle, middle);
                    }
                    let first = self.resolve(bus, list[0]);
                    let second = self.resolve(bus, list[1]);
                    Some((Some(first), Some(second)))
                } else {
                    None
                }
            },
        }
    }

    /// Takes one step: runs the instruction at the program counter.
    /// Returns the number of machine cycles that it took. Where the byte at
    /// the program counter stands for no instruction, the step fails; the
    /// program counter is then behind that byte, and nothing else has
    /// changed.
    pub fn step<B: Bus>(&mut self, bus: &mut B) -> (r: Result<u8, ProcessorError>)
        ensures
            match step_of(*old(self), *old(bus)) {
                Some(outcome) => r == Ok::<u8, ProcessorError>(outcome.cycles) && final(self)@
                    == outcome.state && *final(bus) == outcome.bus,
                None => r == Err::<u8, ProcessorError>(
                    ProcessorError::IllegalOpcode {
                        opcode: old(bus).byte_at(old(self).counter()),
                        address: old(self).counter(),
                    },
                ) && *final(self) == old(self).with_counter(advanced(old(self).counter(), 1))
                    && *final(bus) == *old(bus),
            },
            step_of(*old(self), *old(bus)) is None <==> crate::processor::decoder::is_illegal(
                old(bus).byte_at(old(self).counter()),
            ),
    {
        proof {
            reveal(entry_at);
            reveal(opcode_length);
            self.lemma_with_counter(self.counter(), self.counter());
            crate::processor::decoder::lemma_defined_opcodes(bus.byte_at(self.counter()));
        }
        let address: u16 = self.registers.program_counter.get();
        let opcode: u8 = self.immediate(bus);
        let instruction = match Decoder::decode_opcode(opcode, Prefix::Unprefixed) {
            Some(instruction) => instruction,
            None => {
                return Err(ProcessorError::IllegalOpcode { opcode, address });
            },
        };
        let instruction = if let Mnemonic::CB = instruction.mnemonic() {
            proof {
                old(self).lemma_with_counter(
                    advanced(address, 1),
                    advanced(advanced(address, 1), 1),
                );
            }
            let second: u8 = self.immediate(bus);
            match Decoder::decode_opcode(second, Prefix::CB) {
                Some(instruction) => instruction,
                None => {
                    return Err(ProcessorError::IllegalOpcode { opcode: second, address });
                },
            }
        } else {
            instruction
        };
        let ghost fetched = *self;
        let ghost shape = instruction@;
        assert(entry_at(&*bus, address) == Some(shape));
        assert(fetched == old(self).with_counter(
            advanced(address, opcode_length(&*bus, address)),
        ));
        proof {
            lemma_entries_run(opcode, Prefix::Unprefixed);
            lemma_entries_run(bus.byte_at(advanced(address, 1)), Prefix::CB);
            lemma_accepted_by_shape(shape.mnemonic, shape.operands, fetched, *bus);
            crate::processor::decoder::lemma_operand_count(opcode, Prefix::Unprefixed);
            crate::processor::decoder::lemma_operand_count(
                bus.byte_at(advanced(address, 1)),
                Prefix::CB,
            );
        }
        let (first, second) = match self.resolve_operands(bus, instruction.operands()) {
            Some(pair) => pair,
            None => {
                return Err(ProcessorError::MalformedInstruction);
            },
        };
        proof {
            lemma_extra_cycles(self@, *bus, shape.mnemonic, first, second);
        }
        match self.execute(bus, *instruction.mnemonic(), first, second) {
            Ok(extra) => Ok(instruction.cycle_count() + extra),
            Err(error) => Err(error),
        }
    }
}

} // verus!
