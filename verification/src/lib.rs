//! Emulator core for a byte-oriented, 8086-class CPU instruction set.
//!
//! The crate models a machine state (registers, flags, memory, cursors),
//! decodes opcode bytes and ModR/M-style addressing encodings, and executes
//! instructions against that state.  Arithmetic wraps at the operand width
//! and recomputes the carry, overflow, sign and zero flags bit-exactly.

pub mod byteutils;
pub mod cstate;
pub mod datatypes;
pub mod fault;
pub mod modrm;
pub mod oplib;
pub mod opcodes;
pub mod operand;
pub mod operations;
