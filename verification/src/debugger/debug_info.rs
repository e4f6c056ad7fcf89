//! Disassembly from a snapshot.
//!
//! A `DebugInfo` owns a copy of the registers and of every byte the bus
//! would yield. Decoding from it uses the decoder and the operand
//! resolution of the processor with a program counter of its own, so the
//! processor itself is never touched.
use crate::bus::Readable;
use crate::processor::decoder::{entry_at, lemma_operand_count, opcode_length, Decoder};
use crate::processor::flag_register::Flag;
use crate::processor::instruction::{
    Condition, InstructionInfo, InstructionShape, Mnemonic, Operand, Prefix, Reference, ValueType,
};
use crate::processor::operand_parser::{
    advanced, condition_resolved, value_length, value_resolved, OperandParser, ParserState,
};
use crate::processor::program_counter::ProgramCounter;
use crate::processor::register::Register;
use crate::processor::registers::{RegisterType, Registers};
use crate::util::bitflags::{BitMask, Bitflags};
use vstd::prelude::*;

verus! {

/// The byte that a read yields where the snapshot holds none.
pub const FILL: u8 = 0xFF;

/// The one full pass over the address space that a listing covers.
pub const ADDRESS_SPACE: u32 = 0x10000;

/// A copy of the processor's state.
pub struct ProcessorDebugInfo {
    pub registers: Registers,
}

/// A copy of the processor's state and of the bytes on the bus, byte `i` of
/// `bus` being the byte at address `i`.
pub struct DebugInfo {
    pub cpu_debug_info: ProcessorDebugInfo,
    pub bus: Vec<u8>,
}

/// A vector of bytes read as a bus: byte `i` is at address `i`, and beyond
/// the end every address yields `FILL`.
pub struct ReadableVec<'a> {
    pub value: &'a Vec<u8>,
}

/// The byte at `address` in a snapshot of the bus.
pub open spec fn snapshot_byte(bytes: Seq<u8>, address: u16) -> u8 {
    if address < bytes.len() {
        bytes[address as int]
    } else {
        FILL
    }
}

impl Readable for ReadableVec<'_> {
    open spec fn byte_at(&self, address: u16) -> u8 {
        snapshot_byte(self.value@, address)
    }

    fn read(&self, address: u16) -> (value: u8) {
        let index: usize = address as usize;
        if index < self.value.len() {
            self.value[index]
        } else {
            FILL
        }
    }
}

/// An operand together with what it resolved to.
#[derive(Copy, Clone, Debug, PartialEq, Eq)]
pub enum ParsedOperand {
    /// A value form and the number it stands for.
    Value((ValueType, u16)),
    /// A condition and whether it holds.
    Condition((Condition, bool)),
    /// A place; places are not resolved.
    Reference(Reference),
}

/// What a `DebugInstructionInfo` holds, as plain values.
pub struct DebugInstructionShape {
    pub line: u16,
    pub instruction: InstructionShape,
    pub parsed_operands: Seq<ParsedOperand>,
}

/// One line of disassembly: the address of the instruction, the
/// instruction, and its operands as resolved against the snapshot.
pub struct DebugInstructionInfo {
    pub line: u16,
    pub instruction: InstructionInfo,
    pub parsed_operands: Vec<ParsedOperand>,
}

impl View for DebugInstructionInfo {
    type V = DebugInstructionShape;

    open spec fn view(&self) -> DebugInstructionShape {
        DebugInstructionShape {
            line: self.line,
            instruction: self.instruction@,
            parsed_operands: self.parsed_operands@,
        }
    }
}

/// Operand resolution against a snapshot: a program counter of its own, and
/// the registers and flags of the snapshot.
pub struct DebugOperandParser<'a> {
    program_counter: ProgramCounter,
    debug_info: &'a DebugInfo,
}

impl<'a> DebugOperandParser<'a> {
    /// The snapshot that the parser reads.
    pub closed spec fn snapshot(&self) -> &'a DebugInfo {
        self.debug_info
    }

    /// The parser over `debug_info` whose program counter is at `counter`.
    pub closed spec fn at(counter: u16, debug_info: &'a DebugInfo) -> DebugOperandParser<'a> {
        DebugOperandParser { program_counter: ProgramCounter::pointing_at(counter), debug_info }
    }

    /// A parser is determined by its snapshot and its program counter.
    pub proof fn lemma_at(self, counter: u16, debug_info: &'a DebugInfo)
        ensures
            Self::at(counter, debug_info).counter() == counter,
            Self::at(counter, debug_info).snapshot() == debug_info,
            self == Self::at(self.counter(), self.snapshot()),
    {
        self.program_counter.lemma_pointing_at(counter);
    }

    pub fn new(start_address: u16, debug_info: &'a DebugInfo) -> (r: Self)
        ensures
            r == Self::at(start_address, debug_info),
            r.counter() == start_address,
            r.snapshot() == debug_info,
    {
        let mut program_counter = ProgramCounter::new();
        program_counter.set(start_address);
        proof {
            program_counter.lemma_pointing_at(start_address);
        }
        Self { program_counter, debug_info }
    }
}

impl ParserState for DebugOperandParser<'_> {
    closed spec fn counter(&self) -> u16 {
        self.program_counter@
    }

    open spec fn register_value(&self, register: RegisterType) -> u16 {
        self.snapshot().cpu_debug_info.registers.value_of(register)
    }

    open spec fn flag_state(&self, flag: Flag) -> bool {
        self.snapshot().cpu_debug_info.registers.af.flags_value() & flag.mask() != 0
    }

    open spec fn with_counter(&self, counter: u16) -> Self {
        Self::at(counter, self.snapshot())
    }
}

impl OperandParser for DebugOperandParser<'_> {
    proof fn lemma_with_counter(&self, first: u16, second: u16) {
        self.lemma_at(first, self.snapshot());
        self.lemma_at(second, self.snapshot());
    }

    fn mut_program_counter(&mut self) -> (program_counter: &mut ProgramCounter) {
        proof {
            assert forall|counter: ProgramCounter|
                counter == ProgramCounter::pointing_at(#[trigger] counter@) by {
                counter.lemma_pointing_at(0);
            }
        }
        &mut self.program_counter
    }

    fn reg(&self, register: RegisterType) -> (r: u16) {
        self.debug_info.cpu_debug_info.registers.reg(register)
    }

    fn flag(&self, flag: Flag) -> (r: bool) {
        self.debug_info.cpu_debug_info.registers.af.contains_flag(flag)
    }
}

/// An operand as resolved by `parser`.
pub open spec fn operand_parsed(
    parser: &DebugOperandParser<'_>,
    operand: Operand,
) -> ParsedOperand {
    let bus = ReadableVec { value: &parser.snapshot().bus };
    match operand {
        Operand::Value(value) => ParsedOperand::Value((value, value_resolved(parser, &bus, value))),
        Operand::Condition(condition) => ParsedOperand::Condition(
            (condition, condition_resolved(parser, condition)),
        ),
        Operand::Reference(reference) => ParsedOperand::Reference(reference),
    }
}

/// The number of bytes that resolving an operand moves the program counter
/// by: the immediate bytes of a value. A place is not resolved, so its
/// immediate bytes, if it has any, are not passed.
pub open spec fn operand_length(operand: Operand) -> int {
    match operand {
        Operand::Value(value) => value_length(value),
        _ => 0,
    }
}

/// Where the program counter is once the first `count` of `operands` are
/// resolved, having started at `counter`.
pub open spec fn counter_after(counter: u16, operands: Seq<Operand>, count: int) -> u16
    decreases count,
{
    if count <= 0 {
        counter
    } else {
        advanced(
            counter_after(counter, operands, count - 1),
            operand_length(operands[count - 1]),
        )
    }
}

/// The operands of an instruction as resolved in order against
/// `debug_info`, the first immediate byte being at `counter`.
pub open spec fn operands_parsed(
    debug_info: &DebugInfo,
    counter: u16,
    operands: Option<Seq<Operand>>,
) -> Seq<ParsedOperand> {
    match operands {
        Some(operands) => Seq::new(
            operands.len(),
            |i: int|
                operand_parsed(
                    &DebugOperandParser::at(counter_after(counter, operands, i), debug_info),
                    operands[i],
                ),
        ),
        None => Seq::empty(),
    }
}

/// The number of bytes that resolving the first `count` of `operands` moves
/// the program counter by.
pub open spec fn operands_length(operands: Seq<Operand>, count: int) -> int
    decreases count,
{
    if count <= 0 {
        0
    } else {
        operands_length(operands, count - 1) + operand_length(operands[count - 1])
    }
}

/// Resolving operands moves the program counter by the sum of their
/// lengths, and no operand is longer than two bytes.
pub proof fn lemma_counter_after(counter: u16, operands: Seq<Operand>, count: int)
    requires
        0 <= count <= operands.len(),
    ensures
        0 <= operands_length(operands, count) <= 2 * count,
        counter_after(counter, operands, count) == advanced(
            counter,
            operands_length(operands, count),
        ),
    decreases count,
{
    if count > 0 {
        lemma_counter_after(counter, operands, count - 1);
    }
}

/// Where the program counter is once all operands are resolved.
pub open spec fn counter_past(counter: u16, operands: Option<Seq<Operand>>) -> u16 {
    match operands {
        Some(operands) => counter_after(counter, operands, operands.len() as int),
        None => counter,
    }
}

impl DebugInfo {
    /// The byte at `address`.
    pub open spec fn byte(&self, address: u16) -> u8 {
        snapshot_byte(self.bus@, address)
    }

    /// The opcode table entry for the instruction at `address`, if the
    /// bytes there are one.
    pub open spec fn entry_at(&self, address: u16) -> Option<InstructionShape> {
        entry_at(&ReadableVec { value: &self.bus }, address)
    }

    /// The number of bytes that the opcode of the instruction at `address`
    /// takes up.
    pub open spec fn opcode_length(&self, address: u16) -> int {
        opcode_length(&ReadableVec { value: &self.bus }, address)
    }

    /// The address of the first byte after the opcode of the instruction at
    /// `address`.
    pub open spec fn operands_at(&self, address: u16) -> u16 {
        advanced(address, self.opcode_length(address))
    }

    /// The disassembly of the instruction at `address`, if the bytes there
    /// are one.
    pub open spec fn instruction_at(&self, address: u16) -> Option<DebugInstructionShape> {
        match self.entry_at(address) {
            Some(shape) => Some(
                DebugInstructionShape {
                    line: address,
                    instruction: shape,
                    parsed_operands: operands_parsed(
                        self,
                        self.operands_at(address),
                        shape.operands,
                    ),
                },
            ),
            None => None,
        }
    }

    /// The address at which decoding goes on after the instruction at
    /// `address`, or after the one byte there that is no instruction.
    pub open spec fn next_line(&self, address: u16) -> u16 {
        match self.entry_at(address) {
            Some(shape) => counter_past(self.operands_at(address), shape.operands),
            None => self.operands_at(address),
        }
    }

    /// The number of bytes from `address` to where decoding goes on: the
    /// opcode, with the escape before it if there is one, and the
    /// immediate bytes of the operands that are values.
    pub open spec fn line_length(&self, address: u16) -> int {
        self.opcode_length(address) + match self.entry_at(address) {
            Some(shape) => match shape.operands {
                Some(operands) => operands_length(operands, operands.len() as int),
                None => 0,
            },
            None => 0,
        }
    }

    /// Every line is between one and six bytes long, and decoding goes on
    /// that many bytes further.
    pub proof fn lemma_line_length(&self, address: u16)
        ensures
            1 <= self.line_length(address) <= 6,
            self.next_line(address) == advanced(address, self.line_length(address)),
    {
        reveal(entry_at);
        reveal(opcode_length);
        lemma_operand_count(self.byte(address), Prefix::Unprefixed);
        lemma_operand_count(self.byte(advanced(address, 1)), Prefix::CB);
        match self.entry_at(address) {
            Some(shape) => match shape.operands {
                Some(operands) => {
                    lemma_counter_after(
                        self.operands_at(address),
                        operands,
                        operands.len() as int,
                    );
                },
                None => {},
            },
            None => {},
        }
    }

    /// An instruction whose one operand is a 16-bit immediate is two bytes
    /// longer than its opcode, and the operand is the number that the two
    /// bytes behind the opcode spell, the low byte being the first.
    pub proof fn lemma_word_operand(&self, address: u16)
        requires
            self.entry_at(address) matches Some(shape) && shape.operands == Some(
                seq![Operand::Value(ValueType::Immediate16)],
            ),
        ensures
            self.next_line(address) == advanced(address, self.opcode_length(address) + 2),
            self.instruction_at(address)->0.parsed_operands == seq![
                ParsedOperand::Value(
                    (
                        ValueType::Immediate16,
                        (self.byte(self.operands_at(address)) + 256 * self.byte(
                            advanced(self.operands_at(address), 1),
                        )) as u16,
                    ),
                ),
            ],
    {
        let operands = seq![Operand::Value(ValueType::Immediate16)];
        let start = self.operands_at(address);
        let parser = DebugOperandParser::at(start, self);
        let bus = ReadableVec { value: &self.bus };
        parser.lemma_at(start, self);
        crate::processor::operand_parser::lemma_word_immediate(&parser, &bus);
        reveal_with_fuel(counter_after, 2);
        assert(counter_after(start, operands, 1) == advanced(start, 2));
        assert(advanced(start, 2) == advanced(address, self.opcode_length(address) + 2)) by {
            reveal(opcode_length);
        }
        assert(operands_parsed(self, start, Some(operands)) =~= seq![
            operand_parsed(&parser, operands[0]),
        ]);
    }

    /// The disassembly from `cursor` on, over the next `remaining` bytes:
    /// line after line, a byte that stands for no instruction being passed
    /// over, until `remaining` bytes are covered.
    pub open spec fn listing_from(&self, cursor: u16, remaining: int) -> Seq<
        DebugInstructionShape,
    >
        decreases remaining,
    {
        let left = remaining - self.line_length(cursor);
        if remaining <= 0 {
            Seq::empty()
        } else {
            let rest = if 0 < left < remaining {
                self.listing_from(self.next_line(cursor), left)
            } else {
                Seq::empty()
            };
            match self.instruction_at(cursor) {
                Some(line) => seq![line] + rest,
                None => rest,
            }
        }
    }

    /// The disassembly of one pass over the address space that starts at
    /// `address`.
    pub open spec fn listing(&self, address: u16) -> Seq<DebugInstructionShape> {
        self.listing_from(address, ADDRESS_SPACE as int)
    }

    /// The address of the instruction that the processor was about to
    /// execute when the snapshot was taken.
    pub fn current_line(&self) -> (r: u16)
        ensures
            r == self.cpu_debug_info.registers.value_of(RegisterType::PC),
    {
        self.cpu_debug_info.registers.program_counter.get()
    }

    /// Disassembles forward from `address`, wrapping from the last address
    /// to the first, for one pass over the address space: until a line
    /// ends where the pass began, or behind it. (Lines are of uneven
    /// length, so the pass need not end exactly where it began; it is
    /// never taken a second time.) A byte that stands for no instruction
    /// is passed over and leaves no line.
    pub fn parse_all(&self, address: u16) -> (r: Vec<DebugInstructionInfo>)
        ensures
            debug_shapes_of(r@) == self.listing(address),
    {
        let mut parser = DebugOperandParser::new(address, self);
        let mut instructions: Vec<DebugInstructionInfo> = Vec::new();
        let mut travelled: u32 = 0;
        assert(debug_shapes_of(instructions@) == Seq::<DebugInstructionShape>::empty());
        while travelled < ADDRESS_SPACE
            invariant
                parser.snapshot() == self,
                travelled <= ADDRESS_SPACE + 5,
                self.listing(address) == debug_shapes_of(instructions@) + self.listing_from(
                    parser.counter(),
                    ADDRESS_SPACE - travelled,
                ),
            decreases ADDRESS_SPACE + 5 - travelled,
        {
            let before: u16 = parser.program_counter.get();
            let ghost collected = instructions@;
            proof {
                self.lemma_line_length(before);
                parser.lemma_at(self.next_line(before), self);
            }
            if let Some(instruction) = self.parse_instruction_with_parser(&mut parser) {
                instructions.push(instruction);
                assert(debug_shapes_of(instructions@) == debug_shapes_of(collected) + seq![
                    instruction@,
                ]);
            }
            let after: u16 = parser.program_counter.get();
            travelled = travelled + after.wrapping_sub(before) as u32;
        }
        assert(debug_shapes_of(instructions@) + Seq::<DebugInstructionShape>::empty()
            == debug_shapes_of(instructions@));
        instructions
    }

    /// Disassembles the instruction at `address`. `None` means that the
    /// byte there stands for no instruction.
    pub fn parse_instruction(&self, address: u16) -> (r: Option<DebugInstructionInfo>)
        ensures
            debug_shape_of(r) == self.instruction_at(address),
    {
        let mut parser = DebugOperandParser::new(address, self);
        self.parse_instruction_with_parser(&mut parser)
    }

    /// Disassembles the instruction at the program counter of `parser` and
    /// leaves that counter behind the instruction, or, where the byte there
    /// stands for no instruction, behind that byte.
    pub fn parse_instruction_with_parser(&self, parser: &mut DebugOperandParser<'_>) -> (r: Option<
        DebugInstructionInfo,
    >)
        requires
            old(parser).snapshot() == self,
        ensures
            debug_shape_of(r) == self.instruction_at(old(parser).counter()),
            *final(parser) == DebugOperandParser::at(self.next_line(old(parser).counter()), self),
    {
        proof {
            reveal(entry_at);
            reveal(opcode_length);
        }
        let bus = ReadableVec { value: &self.bus };
        let address: u16 = parser.program_counter.get();

        let opcode: u8 = parser.program_counter.fetch(&bus);
        proof {
            parser.lemma_at(parser.counter(), self);
        }
        let instruction = match Decoder::decode_opcode(opcode, Prefix::Unprefixed) {
            Some(instruction) => instruction,
            None => {
                return None;
            },
        };
        let instruction = if let Mnemonic::CB = instruction.mnemonic() {
            let second: u8 = parser.program_counter.fetch(&bus);
            proof {
                parser.lemma_at(parser.counter(), self);
            }
            match Decoder::decode_opcode(second, Prefix::CB) {
                Some(instruction) => instruction,
                None => {
                    return None;
                },
            }
        } else {
            instruction
        };
        let ghost first = parser.counter();
        let ghost shape = instruction@;

        let mut parsed_operands: Vec<ParsedOperand> = Vec::new();
        if let Some(operands) = instruction.operands() {
            let mut i: usize = 0;
            while i < operands.len()
                invariant
                    i <= operands.len(),
                    parser.snapshot() == self,
                    bus.value == &self.bus,
                    parser.counter() == counter_after(first, operands@, i as int),
                    parsed_operands@ == operands_parsed(self, first, Some(operands@)).subrange(
                        0,
                        i as int,
                    ),
                decreases operands.len() - i,
            {
                proof {
                    parser.lemma_at(parser.counter(), self);
                    parser.lemma_at(
                        advanced(parser.counter(), operand_length(operands@[i as int])),
                        self,
                    );
                }
                let parsed = Self::parse_operand(&bus, parser, operands[i]);
                parsed_operands.push(parsed);
                i = i + 1;
            }
            assert(parsed_operands@ == operands_parsed(self, first, Some(operands@)));
        }
        proof {
            parser.lemma_at(parser.counter(), self);
        }
        Some(DebugInstructionInfo { line: address, instruction, parsed_operands })
    }

    /// Resolves one operand: a value to its number, a condition to its
    /// truth, both from the snapshot; a place stays as it is.
    pub fn parse_operand(
        bus: &ReadableVec<'_>,
        parser: &mut DebugOperandParser<'_>,
        operand: Operand,
    ) -> (r: ParsedOperand)
        requires
            bus.value == &old(parser).snapshot().bus,
        ensures
            r == operand_parsed(old(parser), operand),
            *final(parser) == old(parser).with_counter(
                advanced(old(parser).counter(), operand_length(operand)),
            ),
    {
        proof {
            parser.lemma_at(parser.counter(), parser.snapshot());
        }
        match operand {
            Operand::Value(value) => {
                let parsed_value: u16 = parser.operand_value(bus, value);
                ParsedOperand::Value((value, parsed_value))
            },
            Operand::Condition(condition) => {
                let parsed_condition: bool = parser.operand_condition(condition);
                ParsedOperand::Condition((condition, parsed_condition))
            },
            Operand::Reference(reference) => ParsedOperand::Reference(reference),
        }
    }
}

/// The view of what `parse_instruction` returns.
pub open spec fn debug_shape_of(instruction: Option<DebugInstructionInfo>) -> Option<
    DebugInstructionShape,
> {
    match instruction {
        Some(instruction) => Some(instruction@),
        None => None,
    }
}

/// The views of the lines that `parse_all` returns.
pub open spec fn debug_shapes_of(instructions: Seq<DebugInstructionInfo>) -> Seq<
    DebugInstructionShape,
> {
    instructions.map_values(|instruction: DebugInstructionInfo| instruction@)
}

} // verus!
