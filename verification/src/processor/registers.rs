//! The register file.
use crate::processor::flag_register::FlagRegister;
use crate::processor::program_counter::ProgramCounter;
use crate::processor::register::{lemma_split_join, DualRegister, Register};
use crate::util::bits::lemma_word_bytes;
use vstd::prelude::*;

verus! {

/// The names by which instructions refer to registers: the seven 8-bit
/// registers and the flags byte, and the 16-bit pairs and pointers.
#[derive(Copy, Clone, Debug, PartialEq, Eq, Structural)]
pub enum RegisterType {
    A,
    F,
    B,
    C,
    D,
    E,
    H,
    L,
    AF,
    BC,
    DE,
    HL,
    SP,
    PC,
}

impl RegisterType {
    /// Whether the name stands for a 16-bit register.
    pub open spec fn wide(self) -> bool {
        match self {
            RegisterType::AF
            | RegisterType::BC
            | RegisterType::DE
            | RegisterType::HL
            | RegisterType::SP
            | RegisterType::PC => true,
            _ => false,
        }
    }

    pub fn is16bit(&self) -> (r: bool)
        ensures
            r == self.wide(),
    {
        match self {
            RegisterType::AF
            | RegisterType::BC
            | RegisterType::DE
            | RegisterType::HL
            | RegisterType::SP
            | RegisterType::PC => true,
            _ => false,
        }
    }
}

/// What the registers hold, as plain values.
pub struct RegisterFile {
    pub a: u8,
    /// The flags byte; its low four bits are zero.
    pub f: u8,
    pub b: u8,
    pub c: u8,
    pub d: u8,
    pub e: u8,
    pub h: u8,
    pub l: u8,
    pub sp: u16,
    pub pc: u16,
}

/// The 16-bit value of a register pair.
pub open spec fn pair(high: u8, low: u8) -> u16 {
    (high * 256 + low) as u16
}

impl RegisterFile {
    /// What a read of `register` yields: the byte, zero-extended, for an
    /// 8-bit register, the full value for a 16-bit one.
    pub open spec fn read(self, register: RegisterType) -> u16 {
        match register {
            RegisterType::A => self.a as u16,
            RegisterType::F => self.f as u16,
            RegisterType::B => self.b as u16,
            RegisterType::C => self.c as u16,
            RegisterType::D => self.d as u16,
            RegisterType::E => self.e as u16,
            RegisterType::H => self.h as u16,
            RegisterType::L => self.l as u16,
            RegisterType::AF => pair(self.a, self.f),
            RegisterType::BC => pair(self.b, self.c),
            RegisterType::DE => pair(self.d, self.e),
            RegisterType::HL => pair(self.h, self.l),
            RegisterType::SP => self.sp,
            RegisterType::PC => self.pc,
        }
    }

    /// The registers after `value` is written to `register`. An 8-bit
    /// register takes the low byte, a pair the high byte in its first half
    /// and the low byte in its second, and the flags byte, alone or as half
    /// of AF, drops the low four bits of what it is given.
    pub open spec fn write(self, register: RegisterType, value: u16) -> RegisterFile {
        let high = (value / 256) as u8;
        let low = (value % 256) as u8;
        let flags = (value % 256 - value % 16) as u8;
        match register {
            RegisterType::A => RegisterFile { a: low, ..self },
            RegisterType::F => RegisterFile { f: flags, ..self },
            RegisterType::B => RegisterFile { b: low, ..self },
            RegisterType::C => RegisterFile { c: low, ..self },
            RegisterType::D => RegisterFile { d: low, ..self },
            RegisterType::E => RegisterFile { e: low, ..self },
            RegisterType::H => RegisterFile { h: low, ..self },
            RegisterType::L => RegisterFile { l: low, ..self },
            RegisterType::AF => RegisterFile { a: high, f: flags, ..self },
            RegisterType::BC => RegisterFile { b: high, c: low, ..self },
            RegisterType::DE => RegisterFile { d: high, e: low, ..self },
            RegisterType::HL => RegisterFile { h: high, l: low, ..self },
            RegisterType::SP => RegisterFile { sp: value, ..self },
            RegisterType::PC => RegisterFile { pc: value, ..self },
        }
    }
}

/// All the registers of the processor.
pub struct Registers {
    pub af: FlagRegister,
    pub bc: DualRegister,
    pub de: DualRegister,
    pub hl: DualRegister,
    pub stack_pointer: DualRegister,
    pub program_counter: ProgramCounter,
}

impl View for Registers {
    type V = RegisterFile;

    open spec fn view(&self) -> RegisterFile {
        RegisterFile {
            a: self.af.accumulator_value(),
            f: self.af.flags_value(),
            b: self.bc.high@,
            c: self.bc.low@,
            d: self.de.high@,
            e: self.de.low@,
            h: self.hl.high@,
            l: self.hl.low@,
            sp: self.stack_pointer.value(),
            pc: self.program_counter@,
        }
    }
}

impl Registers {
    /// What a read of `register` yields.
    pub open spec fn value_of(&self, register: RegisterType) -> u16 {
        self@.read(register)
    }

    /// The registers as they are after power-on, with the program counter at
    /// the entry address.
    pub fn new() -> (r: Registers)
        ensures
            r@ == (RegisterFile {
                a: 0x01,
                f: 0xB0,
                b: 0x00,
                c: 0x13,
                d: 0x00,
                e: 0xD8,
                h: 0x01,
                l: 0x4D,
                sp: 0xFFFE,
                pc: 0x0100,
            }),
    {
        let r = Registers {
            af: FlagRegister::new(),
            bc: DualRegister::from(0x0013),
            de: DualRegister::from(0x00D8),
            hl: DualRegister::from(0x014D),
            stack_pointer: DualRegister::from(0xFFFE),
            program_counter: ProgramCounter::new(),
        };
        proof {
            lemma_split_join(0x0013, 0, 0);
            lemma_split_join(0x00D8, 0, 0);
            lemma_split_join(0x014D, 0, 0);
        }
        r
    }

    pub fn reg(&self, register: RegisterType) -> (r: u16)
        ensures
            r == self@.read(register),
    {
        proof {
            lemma_split_join(0, self.af.accumulator_value(), self.af.flags_value());
            lemma_split_join(0, self.bc.high@, self.bc.low@);
            lemma_split_join(0, self.de.high@, self.de.low@);
            lemma_split_join(0, self.hl.high@, self.hl.low@);
        }
        match register {
            RegisterType::A => self.af.accumulator().get(),
            RegisterType::F => self.af.flags().get(),
            RegisterType::B => self.bc.high.get(),
            RegisterType::C => self.bc.low.get(),
            RegisterType::D => self.de.high.get(),
            RegisterType::E => self.de.low.get(),
            RegisterType::H => self.hl.high.get(),
            RegisterType::L => self.hl.low.get(),
            RegisterType::AF => self.af.register().get(),
            RegisterType::BC => self.bc.get(),
            RegisterType::DE => self.de.get(),
            RegisterType::HL => self.hl.get(),
            RegisterType::SP => self.stack_pointer.get(),
            RegisterType::PC => self.program_counter.get(),
        }
    }

    /// Writes `value` to `register`.
    pub fn set_reg(&mut self, register: RegisterType, value: u16)
        ensures
            final(self)@ == old(self)@.write(register, value),
    {
        proof {
            lemma_split_join(value, 0, 0);
            lemma_word_bytes(value);
        }
        match register {
            RegisterType::A => self.af.set_accumulator((value & 0xFF) as u8),
            RegisterType::F => self.af.set_flags((value & 0xFF) as u8),
            RegisterType::B => self.bc.high.set(value),
            RegisterType::C => self.bc.low.set(value),
            RegisterType::D => self.de.high.set(value),
            RegisterType::E => self.de.low.set(value),
            RegisterType::H => self.hl.high.set(value),
            RegisterType::L => self.hl.low.set(value),
            RegisterType::AF => self.af.set(value),
            RegisterType::BC => self.bc.set(value),
            RegisterType::DE => self.de.set(value),
            RegisterType::HL => self.hl.set(value),
            RegisterType::SP => self.stack_pointer.set(value),
            RegisterType::PC => self.program_counter.set(value),
        }
    }
}

} // verus!
