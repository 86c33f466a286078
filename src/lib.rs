//! A two-pass assembler for the 6502 instruction set: source lines are parsed
//! into statements, and statements are assembled into a 64 KiB memory image.
pub mod addressing_modes;
pub mod error;
pub mod opcodes;
pub mod parser;
pub mod assembler;
pub mod nes2;
