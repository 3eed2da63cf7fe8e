use vstd::prelude::*;

use super::CPU;
use crate::flags::{flag_set, lemma_with_flag, Flag};
use crate::opcodes::{AddressingMode, Instruction};
use crate::semantics::{bit7, signed_overflow};

verus! {

proof fn lemma_sign_bit(v: u8)
    by (bit_vector)
    ensures
        (v & 0x80 != 0) == (v >= 0x80),
{
}

proof fn lemma_xor_overflow(a: u8, m: u8, r: u8)
    by (bit_vector)
    ensures
        ((m ^ r) & (r ^ a) & 0x80 != 0) == ((a & 0x80 != 0) == (m & 0x80 != 0) && (r & 0x80 != 0)
            != (a & 0x80 != 0)),
{
}

/// The two's-complement overflow test on the sign bits of the operands and the
/// truncated sum says the same as the signed sum leaving the range of a byte.
proof fn lemma_add_overflow(a: u8, m: u8, carry: bool, r: u8)
    requires
        r as int == (a as int + m as int + if carry {
            1int
        } else {
            0int
        }) % 256,
    ensures
        ((m ^ r) & (r ^ a) & 0x80 != 0) == signed_overflow(a, m, carry),
{
    lemma_xor_overflow(a, m, r);
    lemma_sign_bit(a);
    lemma_sign_bit(m);
    lemma_sign_bit(r);
}

impl CPU {
    /// Sets Zero iff `val` is zero and Negative iff bit 7 of `val` is set.
    pub fn update_flags_zero_neg(&mut self, val: u8)
        ensures
            final(self)@ == old(self)@.update_zero_negative(val),
            flag_set(final(self)@.flags, Flag::Zero) == (val == 0),
            flag_set(final(self)@.flags, Flag::Negative) == bit7(val),
    {
        self.flags.set(Flag::Zero, val == 0);
        self.flags.set(Flag::Negative, val & 0b1000_0000 != 0);
        proof {
            lemma_with_flag(self@.flags, Flag::Negative, bit7(val), Flag::Zero);
        }
    }

    /// Writes the accumulator and records its zero and negative conditions.
    pub fn set_a(&mut self, value: u8)
        ensures
            final(self)@ == old(self)@.set_a(value),
    {
        self.a = value;
        self.update_flags_zero_neg(value);
    }

    /// Adds `data` and the carry to the accumulator. Carry is set when the unsigned sum
    /// passes 255, Overflow when the signed sum leaves -128..=127.
    pub fn add_to_a(&mut self, data: u8)
        ensures
            final(self)@ == old(self)@.add_to_a(data),
    {
        let carry = self.flags.contains(Flag::Carry);
        let sum: u16 = self.a as u16 + data as u16 + if carry {
            1
        } else {
            0
        };
        self.flags.set(Flag::Carry, sum > 0xff);
        let result = (sum % 256) as u8;
        proof {
            lemma_add_overflow(self.a, data, carry, result);
        }
        self.flags.set(Flag::Overflow, (data ^ result) & (result ^ self.a) & 0x80 != 0);
        self.set_a(result);
    }

    /// ADC: adds the operand and the carry to the accumulator.
    pub fn adc(&mut self, mode: AddressingMode)
        requires
            mode != AddressingMode::NoneAddressing,
        ensures
            final(self)@ == old(self)@.adc(mode),
    {
        let addr = self.operand_address(mode);
        let param = self.mem_read(addr);
        self.add_to_a(param);
        self.counter = self.counter.wrapping_add(mode.operand_len());
    }

    /// AND: the accumulator becomes the bitwise AND of itself and the operand.
    pub fn and(&mut self, mode: AddressingMode)
        requires
            mode != AddressingMode::NoneAddressing,
        ensures
            final(self)@ == old(self)@.and(mode),
    {
        let addr = self.operand_address(mode);
        let param = self.mem_read(addr);
        self.set_a(self.a & param);
        self.counter = self.counter.wrapping_add(mode.operand_len());
    }

    /// ASL on the accumulator: bit 7 goes to Carry, the rest shifts left with a zero in bit 0.
    pub fn asl_on_accumulator(&mut self)
        ensures
            final(self)@ == old(self)@.asl_on_accumulator(),
    {
        let param = self.a;
        self.flags.set(Flag::Carry, param & 0b1000_0000 != 0);
        self.set_a(param.wrapping_mul(2));
    }

    /// ASL on memory: the byte at the effective address is shifted left in place, bit 7
    /// going to Carry; Zero and Negative come from the shifted byte.
    pub fn asl(&mut self, mode: AddressingMode)
        requires
            mode != AddressingMode::NoneAddressing,
        ensures
            final(self)@ == old(self)@.asl(mode),
    {
        let addr = self.operand_address(mode);
        let param = self.mem_read(addr);
        self.flags.set(Flag::Carry, param & 0b1000_0000 != 0);
        let result = param.wrapping_mul(2);
        self.mem_write(addr, result);
        self.update_flags_zero_neg(result);
        self.counter = self.counter.wrapping_add(mode.operand_len());
    }

    /// Branch: reads the signed displacement at the program counter; when `condition`
    /// holds, jumps to the byte after the displacement plus the displacement, else steps
    /// past it.
    pub fn branch(&mut self, condition: bool)
        ensures
            final(self)@ == old(self)@.branch(condition),
    {
        let next = self.counter.wrapping_add(1);
        if condition {
            let jump = self.mem_read(self.counter);
            let offset: i16 = if jump < 0x80 {
                jump as i16
            } else {
                jump as i16 - 256
            };
            self.counter = next.wrapping_add_signed(offset);
        } else {
            self.counter = next;
        }
    }

    /// BIT: ANDs the accumulator with the operand and keeps the result in the accumulator
    /// (the canonical 6502 leaves the accumulator alone); Zero from that result, Negative
    /// and Overflow from bits 7 and 6 of the operand.
    pub fn bit(&mut self, mode: AddressingMode)
        requires
            mode != AddressingMode::NoneAddressing,
        ensures
            final(self)@ == old(self)@.bit(mode),
    {
        let addr = self.operand_address(mode);
        let data = self.mem_read(addr);
        self.a = self.a & data;
        self.flags.set(Flag::Zero, self.a == 0);
        self.flags.set(Flag::Negative, data & 0b1000_0000 != 0);
        self.flags.set(Flag::Overflow, data & 0b0100_0000 != 0);
        self.counter = self.counter.wrapping_add(mode.operand_len());
    }

    /// CLC: clears Carry.
    pub fn clc(&mut self)
        ensures
            final(self)@ == old(self)@.with_flag(Flag::Carry, false),
    {
        self.flags.remove(Flag::Carry);
    }

    /// CLD: clears Decimal.
    pub fn cld(&mut self)
        ensures
            final(self)@ == old(self)@.with_flag(Flag::Decimal, false),
    {
        self.flags.remove(Flag::Decimal);
    }

    /// CLI: clears InterruptDisable.
    pub fn cli(&mut self)
        ensures
            final(self)@ == old(self)@.with_flag(Flag::InterruptDisable, false),
    {
        self.flags.remove(Flag::InterruptDisable);
    }

    /// CLV: clears Overflow.
    pub fn clv(&mut self)
        ensures
            final(self)@ == old(self)@.with_flag(Flag::Overflow, false),
    {
        self.flags.remove(Flag::Overflow);
    }

    /// Compare `compare_with` against the operand: Carry iff the operand is at most
    /// `compare_with`, Zero and Negative from `compare_with - operand` (wrapping).
    pub fn cmp(&mut self, mode: AddressingMode, compare_with: u8)
        requires
            mode != AddressingMode::NoneAddressing,
        ensures
            final(self)@ == old(self)@.compare(mode, compare_with),
            flag_set(final(self)@.flags, Flag::Carry) == (old(self)@.operand(mode) <= compare_with),
    {
        let addr = self.operand_address(mode);
        let data = self.mem_read(addr);
        self.flags.set(Flag::Carry, data <= compare_with);
        self.update_flags_zero_neg(compare_with.wrapping_sub(data));
        self.counter = self.counter.wrapping_add(mode.operand_len());
        proof {
            lemma_with_flag(old(self)@.flags, Flag::Carry, data <= compare_with, Flag::Zero);
            let f1 = old(self)@.with_flag(Flag::Carry, data <= compare_with).flags;
            lemma_with_flag(f1, Flag::Zero, compare_with.wrapping_sub(data) == 0, Flag::Carry);
            lemma_with_flag(
                crate::flags::with_flag(f1, Flag::Zero, compare_with.wrapping_sub(data) == 0),
                Flag::Negative,
                bit7(compare_with.wrapping_sub(data)),
                Flag::Carry,
            );
        }
    }

    /// LDA: loads the operand into the accumulator.
    pub fn lda(&mut self, mode: AddressingMode)
        requires
            mode != AddressingMode::NoneAddressing,
        ensures
            final(self)@ == old(self)@.lda(mode),
    {
        let addr = self.operand_address(mode);
        let param = self.mem_read(addr);
        self.set_a(param);
        self.counter = self.counter.wrapping_add(mode.operand_len());
    }

    /// TAX: copies the accumulator into X.
    pub fn tax(&mut self)
        ensures
            final(self)@ == old(self)@.tax(),
    {
        self.x = self.a;
        self.update_flags_zero_neg(self.x);
    }

    /// INX: increments X, wrapping from 0xFF to 0.
    pub fn inx(&mut self)
        ensures
            final(self)@ == old(self)@.inx(),
    {
        self.x = self.x.wrapping_add(1);
        self.update_flags_zero_neg(self.x);
    }

    /// STA: stores the accumulator at the effective address; no flag changes.
    pub fn sta(&mut self, mode: AddressingMode)
        requires
            mode != AddressingMode::NoneAddressing,
        ensures
            final(self)@ == old(self)@.sta(mode),
    {
        let addr = self.operand_address(mode);
        self.mem_write(addr, self.a);
        self.counter = self.counter.wrapping_add(mode.operand_len());
    }

    /// Runs one decoded instruction whose opcode byte has already been consumed.
    pub fn execute(&mut self, ins: Instruction)
        requires
            ins.well_formed(),
        ensures
            final(self)@ == old(self)@.execute(ins),
    {
        match ins {
            Instruction::Brk => {},
            Instruction::Adc(mode) => self.adc(mode),
            Instruction::And(mode) => self.and(mode),
            Instruction::AslAccumulator => self.asl_on_accumulator(),
            Instruction::Asl(mode) => self.asl(mode),
            Instruction::Branch(flag, when_set) => {
                let condition = self.flags.contains(flag) == when_set;
                self.branch(condition);
            },
            Instruction::Bit(mode) => self.bit(mode),
            Instruction::Clc => self.clc(),
            Instruction::Cld => self.cld(),
            Instruction::Cli => self.cli(),
            Instruction::Clv => self.clv(),
            Instruction::Cmp(mode) => {
                let register = self.a;
                self.cmp(mode, register);
            },
            Instruction::Lda(mode) => self.lda(mode),
            Instruction::Tax => self.tax(),
            Instruction::Inx => self.inx(),
            Instruction::Sta(mode) => self.sta(mode),
        }
    }
}

} // verus!
