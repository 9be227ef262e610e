//! The instruction-execution core of an SM83 processor: the register file,
//! a flat 64 KiB memory, the opcode catalog, and the engine that fetches,
//! decodes and executes one instruction per step.

#![allow(unused_imports)]

pub mod alu;
pub mod cpu;
pub mod instructions;
pub mod memory;
pub mod opcodes;
pub mod registers;
pub mod semantics;
