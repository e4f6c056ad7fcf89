//! Operand resolution: from the declared shape of an operand to the number,
//! the address or the truth value that the instruction works on.
//!
//! Immediate operands are part of the instruction stream: resolving one
//! fetches its bytes through the program counter and moves the counter past
//! them. Operands are therefore resolved strictly in the order in which the
//! instruction declares them.
use crate::bus::Readable;
use crate::processor::flag_register::Flag;
use crate::processor::instruction::{AddressType, Condition, ValueType};
use crate::processor::program_counter::ProgramCounter;
use crate::processor::register::join_bytes;
use crate::processor::registers::RegisterType;
use vstd::prelude::*;

verus! {

/// The base of the page that the `Inc` addressing forms reach.
pub const HIGH_PAGE: u16 = 0xFF00;

/// A byte read as a signed number and widened to 16 bits, two's complement.
pub open spec fn sign_extended(byte: u8) -> u16 {
    if byte < 128 {
        byte as u16
    } else {
        (0xFF00 + byte) as u16
    }
}

/// The number of bytes of the instruction stream that an address form
/// takes up.
pub open spec fn address_length(address: AddressType) -> int {
    match address {
        AddressType::Register(_) => 0,
        AddressType::IncRegister(_) => 0,
        AddressType::Immediate => 2,
        AddressType::IncImmediate => 1,
    }
}

/// The number of bytes of the instruction stream that a value form takes
/// up.
pub open spec fn value_length(value: ValueType) -> int {
    match value {
        ValueType::Register(_) => 0,
        ValueType::Immediate => 1,
        ValueType::SignedImmediate => 1,
        ValueType::Immediate16 => 2,
        ValueType::Address(address) => address_length(address),
        ValueType::Constant(_) => 0,
    }
}

/// The address `count` bytes after `counter`, wrapping at the end of the
/// address space.
pub open spec fn advanced(counter: u16, count: int) -> u16 {
    ((counter + count) % 0x10000) as u16
}

/// The 16-bit number stored at `counter`, low byte first.
pub open spec fn word_at<B: Readable>(bus: &B, counter: u16) -> u16 {
    join_bytes(bus.byte_at(advanced(counter, 1)), bus.byte_at(counter))
}

/// The state that operand resolution reads, as contracts see it.
pub trait ParserState: Sized {
    /// The address the program counter points at.
    spec fn counter(&self) -> u16;

    /// What a read of `register` yields.
    spec fn register_value(&self, register: RegisterType) -> u16;

    /// Whether `flag` is set.
    spec fn flag_state(&self, flag: Flag) -> bool;

    /// The same state with the program counter at `counter`.
    spec fn with_counter(&self, counter: u16) -> Self;
}

/// What resolves operands: a program counter to fetch immediates through,
/// and read access to the registers and flags.
pub trait OperandParser: ParserState {
    /// Moving the program counter moves the program counter and nothing
    /// else: the counter is where it was put, only the last of two moves
    /// counts, a move to where the counter is changes nothing, and no
    /// register but PC, and no flag, reads differently afterwards.
    proof fn lemma_with_counter(&self, first: u16, second: u16)
        ensures
            self.with_counter(first).counter() == first,
            self.with_counter(first).with_counter(second) == self.with_counter(second),
            self.with_counter(self.counter()) == *self,
            same_registers(&self.with_counter(first), self),
    ;

    fn mut_program_counter(&mut self) -> (program_counter: &mut ProgramCounter)
        ensures
            program_counter@ == old(self).counter(),
            *final(self) == old(self).with_counter(final(program_counter)@),
    ;

    fn reg(&self, register: RegisterType) -> (r: u16)
        ensures
            r == self.register_value(register),
    ;

    fn flag(&self, flag: Flag) -> (r: bool)
        ensures
            r == self.flag_state(flag),
    ;

    /// Fetches the byte at the program counter.
    fn immediate<B: Readable>(&mut self, bus: &B) -> (r: u8)
        ensures
            r == bus.byte_at(old(self).counter()),
            *final(self) == old(self).with_counter(advanced(old(self).counter(), 1)),
    {
        let program_counter = self.mut_program_counter();
        program_counter.fetch(bus)
    }

    /// Fetches the two bytes at the program counter as one number, low byte
    /// first.
    fn immediate16<B: Readable>(&mut self, bus: &B) -> (r: u16)
        ensures
            r == word_at(bus, old(self).counter()),
            *final(self) == old(self).with_counter(advanced(old(self).counter(), 2)),
    {
        proof {
            let first = advanced(old(self).counter(), 1);
            old(self).lemma_with_counter(first, advanced(first, 1));
        }
        let low: u8 = self.immediate(bus);
        let high: u8 = self.immediate(bus);
        ((high as u16) << 8) | (low as u16)
    }

    /// Resolves an address form: fetches its immediate bytes, if it has any,
    /// and computes the address. Nothing is read at that address.
    fn operand_address<B: Readable>(&mut self, bus: &B, address: AddressType) -> (r: u16)
        ensures
            r == address_resolved(old(self), bus, address),
            *final(self) == old(self).with_counter(
                advanced(old(self).counter(), address_length(address)),
            ),
    {
        proof {
            self.lemma_with_counter(self.counter(), self.counter());
        }
        match address {
            AddressType::Register(register) => self.reg(register),
            AddressType::IncRegister(register) => {
                let offset: u16 = self.reg(register);
                HIGH_PAGE.wrapping_add(offset)
            },
            AddressType::Immediate => self.immediate16(bus),
            AddressType::IncImmediate => {
                let offset: u8 = self.immediate(bus);
                HIGH_PAGE + offset as u16
            },
        }
    }

    /// Resolves a value form to a number: fetches its immediate bytes, if it
    /// has any, and reads the register or the byte in memory that it names.
    fn operand_value<B: Readable>(&mut self, bus: &B, value: ValueType) -> (r: u16)
        ensures
            r == value_resolved(old(self), bus, value),
            *final(self) == old(self).with_counter(
                advanced(old(self).counter(), value_length(value)),
            ),
    {
        proof {
            self.lemma_with_counter(self.counter(), self.counter());
        }
        match value {
            ValueType::Register(register) => self.reg(register),
            ValueType::Immediate => {
                let byte: u8 = self.immediate(bus);
                byte as u16
            },
            ValueType::SignedImmediate => {
                let byte: u8 = self.immediate(bus);
                if byte < 128 {
                    byte as u16
                } else {
                    0xFF00 + byte as u16
                }
            },
            ValueType::Immediate16 => self.immediate16(bus),
            ValueType::Address(address) => {
                let resolved: u16 = self.operand_address(bus, address);
                let byte: u8 = bus.read(resolved);
                byte as u16
            },
            ValueType::Constant(number) => number,
        }
    }

    /// Resolves a condition against the flags as they are now.
    fn operand_condition(&self, condition: Condition) -> (r: bool)
        ensures
            r == condition_resolved(self, condition),
    {
        self.flag(condition.0) == condition.1
    }
}

/// Whether `after` differs from `before` in nothing that operand resolution
/// reads, except for the program counter and for what the register named PC
/// reads as.
pub open spec fn same_registers<P: ParserState>(after: &P, before: &P) -> bool {
    &&& forall|register: RegisterType|
        register != RegisterType::PC ==> #[trigger] after.register_value(register)
            == before.register_value(register)
    &&& forall|flag: Flag| #[trigger] after.flag_state(flag) == before.flag_state(flag)
}

/// The address that `address` stands for, given that its immediate bytes, if
/// it has any, are at the program counter.
pub open spec fn address_resolved<P: ParserState, B: Readable>(
    parser: &P,
    bus: &B,
    address: AddressType,
) -> u16 {
    match address {
        AddressType::Register(register) => parser.register_value(register),
        AddressType::IncRegister(register) => HIGH_PAGE.wrapping_add(
            parser.register_value(register),
        ),
        AddressType::Immediate => word_at(bus, parser.counter()),
        AddressType::IncImmediate => (HIGH_PAGE + bus.byte_at(parser.counter())) as u16,
    }
}

/// The number that `value` stands for, given that its immediate bytes, if it
/// has any, are at the program counter.
pub open spec fn value_resolved<P: ParserState, B: Readable>(
    parser: &P,
    bus: &B,
    value: ValueType,
) -> u16 {
    match value {
        ValueType::Register(register) => parser.register_value(register),
        ValueType::Immediate => bus.byte_at(parser.counter()) as u16,
        ValueType::SignedImmediate => sign_extended(bus.byte_at(parser.counter())),
        ValueType::Immediate16 => word_at(bus, parser.counter()),
        ValueType::Address(address) => bus.byte_at(address_resolved(parser, bus, address)) as u16,
        ValueType::Constant(number) => number,
    }
}

/// A 16-bit immediate takes up the two bytes at the program counter and is
/// the number that they spell, the low byte being the first.
pub proof fn lemma_word_immediate<P: ParserState, B: Readable>(parser: &P, bus: &B)
    ensures
        value_length(ValueType::Immediate16) == 2,
        value_resolved(parser, bus, ValueType::Immediate16) == bus.byte_at(parser.counter())
            + 256 * bus.byte_at(advanced(parser.counter(), 1)),
{
    crate::processor::register::lemma_split_join(
        0,
        bus.byte_at(advanced(parser.counter(), 1)),
        bus.byte_at(parser.counter()),
    );
}

/// Whether the flag of `condition` is in the state that `condition` asks
/// for.
pub open spec fn condition_resolved<P: ParserState>(parser: &P, condition: Condition) -> bool {
    parser.flag_state(condition.0) == condition.1
}

} // verus!
