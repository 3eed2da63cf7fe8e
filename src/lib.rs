//! A model of the MOS 6502 processor: registers, status flags, the 64 KiB address space,
//! the addressing modes and a decode/execute loop over a subset of the instruction set.
//! Every instruction's effect is stated in `semantics` and proved of the code in `cpu`.

pub mod cpu;
pub mod flags;
pub mod opcodes;
pub mod semantics;
