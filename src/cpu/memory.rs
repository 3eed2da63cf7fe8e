use vstd::prelude::*;

use super::CPU;
use crate::opcodes::AddressingMode;

verus! {

impl CPU {
    pub fn mem_read(&self, addr: u16) -> (r: u8)
        ensures
            r == self@.read(addr),
    {
        self.memory[addr as usize]
    }

    pub fn mem_write(&mut self, addr: u16, data: u8)
        ensures
            final(self)@ == old(self)@.write(addr, data),
    {
        self.memory[addr as usize] = data;
    }

    /// Little-endian read of the bytes at `addr` and `addr + 1` (wrapping).
    pub fn mem_read_u16(&self, addr: u16) -> (r: u16)
        ensures
            r == self@.read_u16(addr),
    {
        let low = self.mem_read(addr) as u16;
        let high = self.mem_read(addr.wrapping_add(1)) as u16;
        high * 256 + low
    }

    /// Little-endian write of `data` to `addr` and `addr + 1` (wrapping).
    pub fn mem_write_u16(&mut self, addr: u16, data: u16)
        ensures
            final(self)@ == old(self)@.write_u16(addr, data),
    {
        let low = (data % 256) as u8;
        let high = (data / 256) as u8;
        self.mem_write(addr, low);
        self.mem_write(addr.wrapping_add(1), high);
    }

    /// The effective address of the operand at the program counter; the counter is not moved.
    pub fn operand_address(&self, mode: AddressingMode) -> (r: u16)
        requires
            mode != AddressingMode::NoneAddressing,
        ensures
            r == self@.operand_address(mode),
    {
        let pc = self.counter;
        match mode {
            AddressingMode::Immediate => pc,
            AddressingMode::ZeroPage => self.mem_read(pc) as u16,
            AddressingMode::ZeroPageX => self.mem_read(pc).wrapping_add(self.x) as u16,
            AddressingMode::ZeroPageY => self.mem_read(pc).wrapping_add(self.y) as u16,
            AddressingMode::Absolute => self.mem_read_u16(pc),
            AddressingMode::AbsoluteX => self.mem_read_u16(pc).wrapping_add(self.x as u16),
            AddressingMode::AbsoluteY => self.mem_read_u16(pc).wrapping_add(self.y as u16),
            AddressingMode::IndirectX => {
                let ptr = self.mem_read(pc).wrapping_add(self.x);
                let lo = self.mem_read(ptr as u16);
                let hi = self.mem_read(ptr.wrapping_add(1) as u16);
                (hi as u16) * 256 + lo as u16
            },
            AddressingMode::IndirectY => {
                let ptr = self.mem_read(pc);
                let lo = self.mem_read(ptr as u16);
                let hi = self.mem_read(ptr.wrapping_add(1) as u16);
                let base = (hi as u16) * 256 + lo as u16;
                base.wrapping_add(self.y as u16)
            },
            AddressingMode::NoneAddressing => unreached(),
        }
    }
}

} // verus!
