//! The shape of an instruction: what it does and what it operates on.
use crate::processor::flag_register::Flag;
use crate::processor::registers::RegisterType;
use vstd::prelude::*;

verus! {

/// Which of the two opcode tables a byte is looked up in.
#[derive(Copy, Clone, Debug, PartialEq, Eq, Structural)]
pub enum Prefix {
    /// The table reached through the 0xCB escape.
    CB,
    /// The first table, reached without any escape.
    Unprefixed,
}

/// What an instruction does.
#[derive(Copy, Clone, Debug, PartialEq, Eq, Structural)]
pub enum Mnemonic {
    /// Not an instruction: the escape to the second table.
    CB,
    LD,
    LDHL,
    LDI,
    LDD,
    PUSH,
    POP,
    ADD,
    ADC,
    SUB,
    SBC,
    AND,
    XOR,
    OR,
    CP,
    INC,
    DEC,
    DAA,
    CPL,
    RLC,
    RLCA,
    RL,
    RLA,
    RRC,
    RRCA,
    RR,
    RRA,
    SLA,
    SWAP,
    SRA,
    SRL,
    BIT,
    SET,
    RES,
    CCF,
    SCF,
    NOP,
    HALT,
    STOP,
    DI,
    EI,
    JP,
    JR,
    CALL,
    RET,
    RETI,
    RST,
}

/// A flag and the state it must be in for a branch to be taken.
pub type Condition = (Flag, bool);

/// One operand of an instruction.
#[derive(Copy, Clone, Debug, PartialEq, Eq)]
pub enum Operand {
    /// A place that the instruction writes, or reads and writes. Nothing is
    /// read from the bus to resolve it.
    Reference(Reference),
    /// A number that the instruction reads.
    Value(ValueType),
    /// A test on a flag.
    Condition(Condition),
}

/// A place: a register, or a byte in memory.
#[derive(Copy, Clone, Debug, PartialEq, Eq)]
pub enum Reference {
    Register(RegisterType),
    Address(AddressType),
}

impl Reference {
    /// Whether the place is 16 bits wide: only a 16-bit register is.
    pub open spec fn wide(self) -> bool {
        match self {
            Reference::Register(register) => register.wide(),
            Reference::Address(_) => false,
        }
    }

    pub fn is16bit(&self) -> (r: bool)
        ensures
            r == self.wide(),
    {
        if let Reference::Register(register) = self {
            register.is16bit()
        } else {
            false
        }
    }
}

/// Where a memory operand's address comes from. The `Inc` forms address the
/// page at 0xFF00: the byte they name is added to 0xFF00.
#[derive(Copy, Clone, Debug, PartialEq, Eq)]
pub enum AddressType {
    /// The address is the value of a register.
    Register(RegisterType),
    /// The address is 0xFF00 plus the value of a register.
    IncRegister(RegisterType),
    /// The address is the two bytes that follow in the instruction stream.
    Immediate,
    /// The address is 0xFF00 plus the byte that follows in the instruction
    /// stream.
    IncImmediate,
}

/// Where a value comes from.
#[derive(Copy, Clone, Debug, PartialEq, Eq)]
pub enum ValueType {
    /// The value of a register.
    Register(RegisterType),
    /// The byte that follows in the instruction stream.
    Immediate,
    /// The byte that follows in the instruction stream, read as a signed
    /// number.
    SignedImmediate,
    /// The two bytes that follow in the instruction stream, low byte first.
    Immediate16,
    /// The byte in memory at an address.
    Address(AddressType),
    /// A number that is part of the opcode.
    Constant(u16),
}

/// What an `InstructionInfo` holds, as plain values.
pub struct InstructionShape {
    pub opcode: u8,
    pub mnemonic: Mnemonic,
    /// The operands in the order in which they are resolved; `None` for an
    /// instruction without operands.
    pub operands: Option<Seq<Operand>>,
    /// The number of machine cycles the instruction takes when no branch is
    /// taken.
    pub cycle_count: u8,
}

/// One entry of an opcode table.
#[derive(Debug)]
pub struct InstructionInfo {
    opcode: u8,
    mnemonic: Mnemonic,
    operands: Option<Vec<Operand>>,
    cycle_count: u8,
}

impl View for InstructionInfo {
    type V = InstructionShape;

    closed spec fn view(&self) -> InstructionShape {
        InstructionShape {
            opcode: self.opcode,
            mnemonic: self.mnemonic,
            operands: match self.operands {
                Some(operands) => Some(operands@),
                None => None,
            },
            cycle_count: self.cycle_count,
        }
    }
}

/// The view of an optional operand list.
pub open spec fn operands_view(operands: Option<Vec<Operand>>) -> Option<Seq<Operand>> {
    match operands {
        Some(operands) => Some(operands@),
        None => None,
    }
}

impl Clone for InstructionInfo {
    fn clone(&self) -> (r: InstructionInfo)
        ensures
            r@ == self@,
    {
        let operands: Option<Vec<Operand>> = match &self.operands {
            Some(operands) => {
                let mut copy: Vec<Operand> = Vec::new();
                let mut i: usize = 0;
                while i < operands.len()
                    invariant
                        i <= operands.len(),
                        copy@ == operands@.subrange(0, i as int),
                    decreases operands.len() - i,
                {
                    copy.push(operands[i]);
                    i = i + 1;
                }
                assert(copy@ == operands@);
                Some(copy)
            },
            None => None,
        };
        InstructionInfo {
            opcode: self.opcode,
            mnemonic: self.mnemonic,
            operands,
            cycle_count: self.cycle_count,
        }
    }
}

impl InstructionInfo {
    pub fn new(
        opcode: u8,
        mnemonic: Mnemonic,
        operands: Option<Vec<Operand>>,
        cycle_count: u8,
    ) -> (r: InstructionInfo)
        ensures
            r@ == (InstructionShape {
                opcode,
                mnemonic,
                operands: operands_view(operands),
                cycle_count,
            }),
    {
        InstructionInfo { opcode, mnemonic, operands, cycle_count }
    }

    pub fn opcode(&self) -> (r: u8)
        ensures
            r == self@.opcode,
    {
        self.opcode
    }

    pub fn mnemonic(&self) -> (r: &Mnemonic)
        ensures
            *r == self@.mnemonic,
    {
        &self.mnemonic
    }

    pub fn operands(&self) -> (r: &Option<Vec<Operand>>)
        ensures
            operands_view(*r) == self@.operands,
    {
        &self.operands
    }

    pub fn cycle_count(&self) -> (r: u8)
        ensures
            r == self@.cycle_count,
    {
        self.cycle_count
    }
}

} // verus!
