use vstd::prelude::*;

use crate::flags::Flag;

verus! {

/// How an instruction finds its operand from the bytes that follow the opcode.
#[derive(Clone, Copy, Debug, PartialEq, Eq, Structural)]
pub enum AddressingMode {
    Immediate,
    ZeroPage,
    ZeroPageX,
    ZeroPageY,
    Absolute,
    AbsoluteX,
    AbsoluteY,
    IndirectX,
    IndirectY,
    /// Marks an instruction that has no memory operand; it has no effective address.
    NoneAddressing,
}

impl AddressingMode {
    /// Number of operand bytes that follow the opcode in this mode.
    pub open spec fn spec_operand_len(self) -> u16 {
        match self {
            AddressingMode::Absolute | AddressingMode::AbsoluteX | AddressingMode::AbsoluteY => 2,
            AddressingMode::NoneAddressing => 0,
            _ => 1,
        }
    }

    #[verifier::when_used_as_spec(spec_operand_len)]
    pub fn operand_len(self) -> (r: u16)
        ensures
            r == self.spec_operand_len(),
    {
        match self {
            AddressingMode::Absolute | AddressingMode::AbsoluteX | AddressingMode::AbsoluteY => 2,
            AddressingMode::NoneAddressing => 0,
            _ => 1,
        }
    }
}

/// A decoded instruction: the operation and, where it reads memory, its addressing mode.
#[derive(Clone, Copy, Debug, PartialEq, Eq, Structural)]
pub enum Instruction {
    /// Halts the decode/execute loop.
    Brk,
    Adc(AddressingMode),
    And(AddressingMode),
    AslAccumulator,
    Asl(AddressingMode),
    /// Branches when `flag` is set (`true`) or clear (`false`).
    Branch(Flag, bool),
    Bit(AddressingMode),
    Clc,
    Cld,
    Cli,
    Clv,
    Cmp(AddressingMode),
    Lda(AddressingMode),
    Tax,
    Inx,
    Sta(AddressingMode),
}

impl Instruction {
    /// Every instruction of the table that reads memory names a real addressing mode.
    pub open spec fn well_formed(self) -> bool {
        match self {
            Instruction::Adc(m) | Instruction::And(m) | Instruction::Asl(m) | Instruction::Bit(m)
            | Instruction::Cmp(m) | Instruction::Lda(m) | Instruction::Sta(m) => m
                != AddressingMode::NoneAddressing,
            _ => true,
        }
    }
}

/// The instruction table: what each opcode byte stands for, `None` for an unknown opcode.
pub open spec fn spec_decode(op: u8) -> Option<Instruction> {
    match op {
        0x00 => Some(Instruction::Brk),
        0x69 => Some(Instruction::Adc(AddressingMode::Immediate)),
        0x65 => Some(Instruction::Adc(AddressingMode::ZeroPage)),
        0x75 => Some(Instruction::Adc(AddressingMode::ZeroPageX)),
        0x6d => Some(Instruction::Adc(AddressingMode::Absolute)),
        0x7d => Some(Instruction::Adc(AddressingMode::AbsoluteX)),
        0x79 => Some(Instruction::Adc(AddressingMode::AbsoluteY)),
        0x61 => Some(Instruction::Adc(AddressingMode::IndirectX)),
        0x71 => Some(Instruction::Adc(AddressingMode::IndirectY)),
        0x29 => Some(Instruction::And(AddressingMode::Immediate)),
        0x25 => Some(Instruction::And(AddressingMode::ZeroPage)),
        0x35 => Some(Instruction::And(AddressingMode::ZeroPageX)),
        0x2d => Some(Instruction::And(AddressingMode::Absolute)),
        0x3d => Some(Instruction::And(AddressingMode::AbsoluteX)),
        0x39 => Some(Instruction::And(AddressingMode::AbsoluteY)),
        0x21 => Some(Instruction::And(AddressingMode::IndirectX)),
        0x31 => Some(Instruction::And(AddressingMode::IndirectY)),
        0x0a => Some(Instruction::AslAccumulator),
        0x06 => Some(Instruction::Asl(AddressingMode::ZeroPage)),
        0x16 => Some(Instruction::Asl(AddressingMode::ZeroPageX)),
        0x0e => Some(Instruction::Asl(AddressingMode::Absolute)),
        0x1e => Some(Instruction::Asl(AddressingMode::AbsoluteX)),
        0x90 => Some(Instruction::Branch(Flag::Carry, false)),
        0xb0 => Some(Instruction::Branch(Flag::Carry, true)),
        0xf0 => Some(Instruction::Branch(Flag::Zero, true)),
        0x30 => Some(Instruction::Branch(Flag::Negative, true)),
        0xd0 => Some(Instruction::Branch(Flag::Zero, false)),
        0x10 => Some(Instruction::Branch(Flag::Negative, false)),
        0x50 => Some(Instruction::Branch(Flag::Overflow, false)),
        0x70 => Some(Instruction::Branch(Flag::Overflow, true)),
        0x24 => Some(Instruction::Bit(AddressingMode::ZeroPage)),
        0x2c => Some(Instruction::Bit(AddressingMode::Absolute)),
        0x18 => Some(Instruction::Clc),
        0xd8 => Some(Instruction::Cld),
        0x58 => Some(Instruction::Cli),
        0xb8 => Some(Instruction::Clv),
        0xc9 => Some(Instruction::Cmp(AddressingMode::Immediate)),
        0xc5 => Some(Instruction::Cmp(AddressingMode::ZeroPage)),
        0xd5 => Some(Instruction::Cmp(AddressingMode::ZeroPageX)),
        0xcd => Some(Instruction::Cmp(AddressingMode::Absolute)),
        0xdd => Some(Instruction::Cmp(AddressingMode::AbsoluteX)),
        0xd9 => Some(Instruction::Cmp(AddressingMode::AbsoluteY)),
        0xc1 => Some(Instruction::Cmp(AddressingMode::IndirectX)),
        0xd1 => Some(Instruction::Cmp(AddressingMode::IndirectY)),
        0xa9 => Some(Instruction::Lda(AddressingMode::Immediate)),
        0xa5 => Some(Instruction::Lda(AddressingMode::ZeroPage)),
        0xb5 => Some(Instruction::Lda(AddressingMode::ZeroPageX)),
        0xad => Some(Instruction::Lda(AddressingMode::Absolute)),
        0xbd => Some(Instruction::Lda(AddressingMode::AbsoluteX)),
        0xb9 => Some(Instruction::Lda(AddressingMode::AbsoluteY)),
        0xa1 => Some(Instruction::Lda(AddressingMode::IndirectX)),
        0xb1 => Some(Instruction::Lda(AddressingMode::IndirectY)),
        0xaa => Some(Instruction::Tax),
        0xe8 => Some(Instruction::Inx),
        0x85 => Some(Instruction::Sta(AddressingMode::ZeroPage)),
        0x95 => Some(Instruction::Sta(AddressingMode::ZeroPageX)),
        0x8d => Some(Instruction::Sta(AddressingMode::Absolute)),
        0x9d => Some(Instruction::Sta(AddressingMode::AbsoluteX)),
        0x99 => Some(Instruction::Sta(AddressingMode::AbsoluteY)),
        0x81 => Some(Instruction::Sta(AddressingMode::IndirectX)),
        0x91 => Some(Instruction::Sta(AddressingMode::IndirectY)),
        _ => None,
    }
}

/// Looks an opcode byte up in the instruction table.
#[verifier::when_used_as_spec(spec_decode)]
pub fn decode(op: u8) -> (r: Option<Instruction>)
    ensures
        r == spec_decode(op),
{
    match op {
        0x00 => Some(Instruction::Brk),
        0x69 => Some(Instruction::Adc(AddressingMode::Immediate)),
        0x65 => Some(Instruction::Adc(AddressingMode::ZeroPage)),
        0x75 => Some(Instruction::Adc(AddressingMode::ZeroPageX)),
        0x6d => Some(Instruction::Adc(AddressingMode::Absolute)),
        0x7d => Some(Instruction::Adc(AddressingMode::AbsoluteX)),
        0x79 => Some(Instruction::Adc(AddressingMode::AbsoluteY)),
        0x61 => Some(Instruction::Adc(AddressingMode::IndirectX)),
        0x71 => Some(Instruction::Adc(AddressingMode::IndirectY)),
        0x29 => Some(Instruction::And(AddressingMode::Immediate)),
        0x25 => Some(Instruction::And(AddressingMode::ZeroPage)),
        0x35 => Some(Instruction::And(AddressingMode::ZeroPageX)),
        0x2d => Some(Instruction::And(AddressingMode::Absolute)),
        0x3d => Some(Instruction::And(AddressingMode::AbsoluteX)),
        0x39 => Some(Instruction::And(AddressingMode::AbsoluteY)),
        0x21 => Some(Instruction::And(AddressingMode::IndirectX)),
        0x31 => Some(Instruction::And(AddressingMode::IndirectY)),
        0x0a => Some(Instruction::AslAccumulator),
        0x06 => Some(Instruction::Asl(AddressingMode::ZeroPage)),
        0x16 => Some(Instruction::Asl(AddressingMode::ZeroPageX)),
        0x0e => Some(Instruction::Asl(AddressingMode::Absolute)),
        0x1e => Some(Instruction::Asl(AddressingMode::AbsoluteX)),
        0x90 => Some(Instruction::Branch(Flag::Carry, false)),
        0xb0 => Some(Instruction::Branch(Flag::Carry, true)),
        0xf0 => Some(Instruction::Branch(Flag::Zero, true)),
        0x30 => Some(Instruction::Branch(Flag::Negative, true)),
        0xd0 => Some(Instruction::Branch(Flag::Zero, false)),
        0x10 => Some(Instruction::Branch(Flag::Negative, false)),
        0x50 => Some(Instruction::Branch(Flag::Overflow, false)),
        0x70 => Some(Instruction::Branch(Flag::Overflow, true)),
        0x24 => Some(Instruction::Bit(AddressingMode::ZeroPage)),
        0x2c => Some(Instruction::Bit(AddressingMode::Absolute)),
        0x18 => Some(Instruction::Clc),
        0xd8 => Some(Instruction::Cld),
        0x58 => Some(Instruction::Cli),
        0xb8 => Some(Instruction::Clv),
        0xc9 => Some(Instruction::Cmp(AddressingMode::Immediate)),
        0xc5 => Some(Instruction::Cmp(AddressingMode::ZeroPage)),
        0xd5 => Some(Instruction::Cmp(AddressingMode::ZeroPageX)),
        0xcd => Some(Instruction::Cmp(AddressingMode::Absolute)),
        0xdd => Some(Instruction::Cmp(AddressingMode::AbsoluteX)),
        0xd9 => Some(Instruction::Cmp(AddressingMode::AbsoluteY)),
        0xc1 => Some(Instruction::Cmp(AddressingMode::IndirectX)),
        0xd1 => Some(Instruction::Cmp(AddressingMode::IndirectY)),
        0xa9 => Some(Instruction::Lda(AddressingMode::Immediate)),
        0xa5 => Some(Instruction::Lda(AddressingMode::ZeroPage)),
        0xb5 => Some(Instruction::Lda(AddressingMode::ZeroPageX)),
        0xad => Some(Instruction::Lda(AddressingMode::Absolute)),
        0xbd => Some(Instruction::Lda(AddressingMode::AbsoluteX)),
        0xb9 => Some(Instruction::Lda(AddressingMode::AbsoluteY)),
        0xa1 => Some(Instruction::Lda(AddressingMode::IndirectX)),
        0xb1 => Some(Instruction::Lda(AddressingMode::IndirectY)),
        0xaa => Some(Instruction::Tax),
        0xe8 => Some(Instruction::Inx),
        0x85 => Some(Instruction::Sta(AddressingMode::ZeroPage)),
        0x95 => Some(Instruction::Sta(AddressingMode::ZeroPageX)),
        0x8d => Some(Instruction::Sta(AddressingMode::Absolute)),
        0x9d => Some(Instruction::Sta(AddressingMode::AbsoluteX)),
        0x99 => Some(Instruction::Sta(AddressingMode::AbsoluteY)),
        0x81 => Some(Instruction::Sta(AddressingMode::IndirectX)),
        0x91 => Some(Instruction::Sta(AddressingMode::IndirectY)),
        _ => None,
    }
}

/// Every entry of the instruction table names a real addressing mode where it reads memory.
pub proof fn lemma_decode_well_formed(op: u8)
    ensures
        spec_decode(op) matches Some(ins) ==> ins.well_formed(),
{
}

} // verus!
