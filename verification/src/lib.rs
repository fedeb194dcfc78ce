//! Instruction-level model of a 6502-family CPU.
//!
//! The crate decodes an opcode byte into its `aaabbbcc` fields, resolves the
//! addressing mode to an effective address, executes the operation's effect on
//! the register file and status flags, and commits the program counter and
//! cycle count — one instruction per call, with bit-exact flag semantics.

pub mod cpu;
pub mod decode;
pub mod instructions;
pub mod laws;
pub mod memory;
pub mod resolve;
pub mod state;
