use vstd::prelude::*;

use crate::flags::{flag_set, Flag, Flags};
use crate::semantics::{initial_state, CpuState};

mod lifecycle;
mod memory;
mod operations;

verus! {

/// A 6502 processor: registers, status flags and the whole 64 KiB address space it owns.
pub struct CPU {
    /// Stores the result of arithmetic, logic and memory operations.
    pub a: u8,
    /// The status register.
    pub flags: Flags,
    /// Address of the next opcode.
    pub counter: u16,
    /// Index register X, used as an offset by some addressing modes and as a counter.
    pub x: u8,
    /// Index register Y, used as an offset by some addressing modes and as a counter.
    pub y: u8,
    /// One byte for each 16-bit address; a program image lives at 0x8000..=0xFFFF.
    memory: [u8; 0x10000],
}

impl View for CPU {
    type V = CpuState;

    closed spec fn view(&self) -> CpuState {
        CpuState {
            a: self.a,
            x: self.x,
            y: self.y,
            counter: self.counter,
            flags: self.flags@,
            mem: self.memory@,
        }
    }
}

impl CPU {
    /// A processor in its power-up state: registers zero, power-up flags, memory zero-filled.
    pub fn new() -> (r: CPU)
        ensures
            r@ == initial_state(),
    {
        let r = CPU {
            a: 0,
            flags: Flags::power_up(),
            counter: 0,
            x: 0,
            y: 0,
            memory: [0u8; 0x10000],
        };
        assert(r.memory@ =~= initial_state().mem);
        r
    }

    pub fn flag_zero(&self) -> (r: bool)
        ensures
            r == flag_set(self@.flags, Flag::Zero),
    {
        self.flags.contains(Flag::Zero)
    }

    pub fn flag_neg(&self) -> (r: bool)
        ensures
            r == flag_set(self@.flags, Flag::Negative),
    {
        self.flags.contains(Flag::Negative)
    }
}

} // verus!
