//! A DCPU-16 toolchain: the virtual machine, its devices, a two-pass
//! assembler and a single-instruction disassembler.

pub mod instructions;
pub mod alu;
pub mod semantics;
pub mod dcpu;
pub mod laws;
pub mod assembler;
pub mod lexer;
pub mod parser;
pub mod devices;
pub mod disassembler;
pub mod report;
