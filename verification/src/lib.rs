//! The instruction-processing core of an RV32I simulator: a decoder from
//! 32-bit words to instruction formats, and an engine that applies decoded
//! instructions to a register file and a program counter.

pub mod alu;
pub mod cpu;
pub mod inst;
pub mod names;
pub mod state;
