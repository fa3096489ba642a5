//! Bytecode core of a small interpreted language: the instruction set and its
//! byte encoding, the chunk that holds code, constants and line metadata, a
//! disassembler for diagnostics, and a stack machine that runs a chunk.

pub mod chunk;
pub mod disasm;
pub mod error;
pub mod opcode;
pub mod text;
pub mod value;
pub mod vm;
