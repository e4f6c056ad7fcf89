//! The processor: its registers, the decoder, the resolution of operands,
//! the arithmetic, and the engine that puts them together.
pub mod alu;
pub mod decoder;
pub mod execution;
pub mod flag_register;
pub mod instruction;
pub mod operand_parser;
pub mod program_counter;
pub mod register;
pub mod registers;

