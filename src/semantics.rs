use vstd::prelude::*;

use crate::flags::{flag_set, lemma_with_flag, with_flag, Flag, POWER_UP_BITS};
use crate::opcodes::{spec_decode, AddressingMode, Instruction};

verus! {

/// Address at which a loaded program starts.
pub const PROGRAM_ORIGIN: u16 = 0x8000;

/// Address of the little-endian reset vector.
pub const RESET_VECTOR: u16 = 0xFFFC;

/// Message of the failure for a byte that is not in the instruction table.
pub const UNKNOWN_OPCODE: &'static str = "Unknown opcode found.";

/// Message of the failure for a bounded run that used up its instruction budget.
pub const STEP_LIMIT_REACHED: &'static str = "Instruction limit reached.";

/// The observable state of the processor: registers, status byte and the 64 KiB address space.
pub struct CpuState {
    pub a: u8,
    pub x: u8,
    pub y: u8,
    pub counter: u16,
    pub flags: u8,
    pub mem: Seq<u8>,
}

/// What one step of the decode/execute loop did.
#[derive(Clone, Copy, Debug, PartialEq, Eq, Structural)]
pub enum StepOutcome {
    /// An instruction ran; the loop goes on.
    Continue,
    /// The halt opcode was read.
    Halt,
    /// The byte read is not in the instruction table.
    UnknownOpcode,
}

/// Bit 7 of a byte, the sign bit.
pub open spec fn bit7(v: u8) -> bool {
    v & 0x80 != 0
}

/// Bit 6 of a byte.
pub open spec fn bit6(v: u8) -> bool {
    v & 0x40 != 0
}

/// The 16-bit value with low byte `lo` and high byte `hi`.
pub open spec fn word(lo: u8, hi: u8) -> u16 {
    (hi as int * 256 + lo as int) as u16
}

/// A byte read as a two's-complement number.
pub open spec fn signed(v: u8) -> int {
    if v < 0x80 {
        v as int
    } else {
        v as int - 256
    }
}

/// The status byte after recording the zero and negative conditions of `v`.
pub open spec fn zero_negative(flags: u8, v: u8) -> u8 {
    with_flag(with_flag(flags, Flag::Zero, v == 0), Flag::Negative, bit7(v))
}

/// Whether `a + m + carry` leaves the signed range of a byte.
pub open spec fn signed_overflow(a: u8, m: u8, carry: bool) -> bool {
    let sum = signed(a) + signed(m) + if carry {
        1int
    } else {
        0int
    };
    !(-128 <= sum <= 127)
}

/// `mem` with the first `n` bytes of `program` in place from the program origin on.
pub open spec fn copy_to_origin(mem: Seq<u8>, program: Seq<u8>, n: int) -> Seq<u8> {
    Seq::new(
        0x10000,
        |i: int|
            if 0x8000 <= i < 0x8000 + n {
                program[i - 0x8000]
            } else {
                mem[i]
            },
    )
}

/// The state after power-up: registers zero, power-up flags, memory zero-filled.
pub open spec fn initial_state() -> CpuState {
    CpuState { a: 0, x: 0, y: 0, counter: 0, flags: POWER_UP_BITS, mem: Seq::new(0x10000, |i: int| 0u8) }
}

impl CpuState {
    pub open spec fn read(self, addr: u16) -> u8 {
        self.mem[addr as int]
    }

    /// Little-endian 16-bit value at `addr`; the high byte comes from `addr + 1`, wrapping.
    pub open spec fn read_u16(self, addr: u16) -> u16 {
        word(self.read(addr), self.read(addr.wrapping_add(1)))
    }

    pub open spec fn write(self, addr: u16, v: u8) -> CpuState {
        CpuState { mem: self.mem.update(addr as int, v), ..self }
    }

    pub open spec fn write_u16(self, addr: u16, v: u16) -> CpuState {
        self.write(addr, (v % 256) as u8).write(addr.wrapping_add(1), (v / 256) as u8)
    }

    pub open spec fn with_flag(self, f: Flag, value: bool) -> CpuState {
        CpuState { flags: with_flag(self.flags, f, value), ..self }
    }

    pub open spec fn flag(self, f: Flag) -> bool {
        flag_set(self.flags, f)
    }

    /// Moves the program counter `n` bytes on, wrapping.
    pub open spec fn advance(self, n: u16) -> CpuState {
        CpuState { counter: self.counter.wrapping_add(n), ..self }
    }

    /// The effective address of the operand that starts at the program counter.
    pub open spec fn operand_address(self, mode: AddressingMode) -> u16
        recommends
            mode != AddressingMode::NoneAddressing,
    {
        let pc = self.counter;
        match mode {
            AddressingMode::Immediate => pc,
            AddressingMode::ZeroPage => self.read(pc) as u16,
            AddressingMode::ZeroPageX => self.read(pc).wrapping_add(self.x) as u16,
            AddressingMode::ZeroPageY => self.read(pc).wrapping_add(self.y) as u16,
            AddressingMode::Absolute => self.read_u16(pc),
            AddressingMode::AbsoluteX => self.read_u16(pc).wrapping_add(self.x as u16),
            AddressingMode::AbsoluteY => self.read_u16(pc).wrapping_add(self.y as u16),
            AddressingMode::IndirectX => {
                let ptr = self.read(pc).wrapping_add(self.x);
                word(self.read(ptr as u16), self.read(ptr.wrapping_add(1) as u16))
            },
            AddressingMode::IndirectY => {
                let ptr = self.read(pc);
                word(self.read(ptr as u16), self.read(ptr.wrapping_add(1) as u16)).wrapping_add(
                    self.y as u16,
                )
            },
            AddressingMode::NoneAddressing => 0,
        }
    }

    /// The byte at the effective address.
    pub open spec fn operand(self, mode: AddressingMode) -> u8 {
        self.read(self.operand_address(mode))
    }

    /// Records the zero and negative conditions of `v`.
    pub open spec fn update_zero_negative(self, v: u8) -> CpuState {
        CpuState { flags: zero_negative(self.flags, v), ..self }
    }

    /// Writes the accumulator and records its zero and negative conditions.
    pub open spec fn set_a(self, v: u8) -> CpuState {
        CpuState { a: v, ..self }.update_zero_negative(v)
    }

    /// Adds `m` and the carry to the accumulator, setting Carry, Overflow, Zero and Negative.
    pub open spec fn add_to_a(self, m: u8) -> CpuState {
        let carry = self.flag(Flag::Carry);
        let sum = self.a as int + m as int + if carry {
            1int
        } else {
            0int
        };
        self.with_flag(Flag::Carry, sum > 255).with_flag(
            Flag::Overflow,
            signed_overflow(self.a, m, carry),
        ).set_a((sum % 256) as u8)
    }

    /// The accumulator shifted left one bit, bit 7 going to Carry.
    pub open spec fn asl_on_accumulator(self) -> CpuState {
        self.with_flag(Flag::Carry, bit7(self.a)).set_a(((self.a as int * 2) % 256) as u8)
    }

    /// The byte at the effective address shifted left one bit in place, bit 7 going to Carry.
    pub open spec fn asl(self, mode: AddressingMode) -> CpuState {
        let addr = self.operand_address(mode);
        let v = self.read(addr);
        let r = ((v as int * 2) % 256) as u8;
        self.with_flag(Flag::Carry, bit7(v)).write(addr, r).update_zero_negative(r).advance(
            mode.operand_len(),
        )
    }

    /// Reads the displacement byte at the program counter; when `condition` holds the
    /// counter moves to the byte after it plus the signed displacement, else just past it.
    pub open spec fn branch(self, condition: bool) -> CpuState {
        let next = self.counter.wrapping_add(1);
        if condition {
            CpuState {
                counter: (((next as int + signed(self.read(self.counter))) % 0x10000) as u16),
                ..self
            }
        } else {
            CpuState { counter: next, ..self }
        }
    }

    /// The accumulator is ANDed with the operand and keeps the result; Zero comes from that
    /// result, Negative and Overflow from bits 7 and 6 of the operand.
    pub open spec fn bit(self, mode: AddressingMode) -> CpuState {
        let m = self.operand(mode);
        let r = self.a & m;
        CpuState { a: r, ..self }.with_flag(Flag::Zero, r == 0).with_flag(
            Flag::Negative,
            bit7(m),
        ).with_flag(Flag::Overflow, bit6(m)).advance(mode.operand_len())
    }

    /// Compares `reg` with the operand: Carry when the operand is at most `reg`, Zero and
    /// Negative from `reg - operand`; no register changes.
    pub open spec fn compare(self, mode: AddressingMode, reg: u8) -> CpuState {
        let m = self.operand(mode);
        self.with_flag(Flag::Carry, m <= reg).update_zero_negative(reg.wrapping_sub(m)).advance(
            mode.operand_len(),
        )
    }

    pub open spec fn lda(self, mode: AddressingMode) -> CpuState {
        self.set_a(self.operand(mode)).advance(mode.operand_len())
    }

    pub open spec fn and(self, mode: AddressingMode) -> CpuState {
        self.set_a(self.a & self.operand(mode)).advance(mode.operand_len())
    }

    pub open spec fn adc(self, mode: AddressingMode) -> CpuState {
        self.add_to_a(self.operand(mode)).advance(mode.operand_len())
    }

    pub open spec fn sta(self, mode: AddressingMode) -> CpuState {
        self.write(self.operand_address(mode), self.a).advance(mode.operand_len())
    }

    pub open spec fn tax(self) -> CpuState {
        CpuState { x: self.a, ..self }.update_zero_negative(self.a)
    }

    pub open spec fn inx(self) -> CpuState {
        let v = self.x.wrapping_add(1);
        CpuState { x: v, ..self }.update_zero_negative(v)
    }

    /// Runs one decoded instruction whose opcode byte has already been consumed.
    pub open spec fn execute(self, ins: Instruction) -> CpuState {
        match ins {
            Instruction::Brk => self,
            Instruction::Adc(m) => self.adc(m),
            Instruction::And(m) => self.and(m),
            Instruction::AslAccumulator => self.asl_on_accumulator(),
            Instruction::Asl(m) => self.asl(m),
            Instruction::Branch(f, when_set) => self.branch(self.flag(f) == when_set),
            Instruction::Bit(m) => self.bit(m),
            Instruction::Clc => self.with_flag(Flag::Carry, false),
            Instruction::Cld => self.with_flag(Flag::Decimal, false),
            Instruction::Cli => self.with_flag(Flag::InterruptDisable, false),
            Instruction::Clv => self.with_flag(Flag::Overflow, false),
            Instruction::Cmp(m) => self.compare(m, self.a),
            Instruction::Lda(m) => self.lda(m),
            Instruction::Tax => self.tax(),
            Instruction::Inx => self.inx(),
            Instruction::Sta(m) => self.sta(m),
        }
    }

    /// One pass of the decode/execute loop: read the opcode, move past it, dispatch.
    pub open spec fn step(self) -> (CpuState, StepOutcome) {
        let op = self.read(self.counter);
        let s = self.advance(1);
        match spec_decode(op) {
            None => (s, StepOutcome::UnknownOpcode),
            Some(Instruction::Brk) => (s, StepOutcome::Halt),
            Some(ins) => (s.execute(ins), StepOutcome::Continue),
        }
    }

    /// At most `budget` steps of the loop: the final state and how the run ended.
    pub open spec fn run(self, budget: nat) -> (CpuState, Result<(), &'static str>)
        decreases budget,
    {
        if budget == 0 {
            (self, Err(STEP_LIMIT_REACHED))
        } else {
            let (s, outcome) = self.step();
            match outcome {
                StepOutcome::Halt => (s, Ok(())),
                StepOutcome::UnknownOpcode => (s, Err(UNKNOWN_OPCODE)),
                StepOutcome::Continue => s.run((budget - 1) as nat),
            }
        }
    }

    /// Power-up register values, with the program counter taken from the reset vector.
    pub open spec fn reset(self) -> CpuState {
        CpuState {
            a: 0,
            x: 0,
            flags: POWER_UP_BITS,
            counter: self.read_u16(RESET_VECTOR),
            ..self
        }
    }

    /// `program` copied to the program origin, then the origin stored at the reset vector.
    pub open spec fn load(self, program: Seq<u8>) -> CpuState {
        CpuState { mem: copy_to_origin(self.mem, program, program.len() as int), ..self }.write_u16(
            RESET_VECTOR,
            PROGRAM_ORIGIN,
        )
    }
}

/// Recording the zero and negative conditions of any byte `v` leaves Zero set exactly when
/// `v` is zero, Negative set exactly when bit 7 of `v` is set, and every other flag as it was.
pub proof fn lemma_zero_negative(flags: u8, v: u8, g: Flag)
    ensures
        flag_set(zero_negative(flags, v), Flag::Zero) == (v == 0),
        flag_set(zero_negative(flags, v), Flag::Negative) == bit7(v),
        g != Flag::Zero && g != Flag::Negative ==> flag_set(zero_negative(flags, v), g)
            == flag_set(flags, g),
{
    let f1 = with_flag(flags, Flag::Zero, v == 0);
    lemma_with_flag(flags, Flag::Zero, v == 0, g);
    lemma_with_flag(f1, Flag::Negative, bit7(v), g);
    lemma_with_flag(flags, Flag::Zero, v == 0, Flag::Zero);
    lemma_with_flag(f1, Flag::Negative, bit7(v), Flag::Zero);
    lemma_with_flag(f1, Flag::Negative, bit7(v), Flag::Negative);
}

/// Every register write that goes through the zero/negative update leaves Zero and
/// Negative describing the value written: the accumulator for a load or an AND, X for a
/// transfer or an increment.
pub proof fn lemma_register_writes_set_zero_negative(s: CpuState, v: u8, mode: AddressingMode)
    ensures
        s.set_a(v).flag(Flag::Zero) == (v == 0),
        s.set_a(v).flag(Flag::Negative) == bit7(v),
        s.lda(mode).flag(Flag::Zero) == (s.lda(mode).a == 0),
        s.lda(mode).flag(Flag::Negative) == bit7(s.lda(mode).a),
        s.and(mode).flag(Flag::Zero) == (s.and(mode).a == 0),
        s.and(mode).flag(Flag::Negative) == bit7(s.and(mode).a),
        s.tax().flag(Flag::Zero) == (s.tax().x == 0),
        s.tax().flag(Flag::Negative) == bit7(s.tax().x),
        s.inx().flag(Flag::Zero) == (s.inx().x == 0),
        s.inx().flag(Flag::Negative) == bit7(s.inx().x),
{
    lemma_zero_negative(s.flags, v, Flag::Zero);
    lemma_zero_negative(s.flags, s.operand(mode), Flag::Zero);
    lemma_zero_negative(s.flags, s.a & s.operand(mode), Flag::Zero);
    lemma_zero_negative(s.flags, s.a, Flag::Zero);
    lemma_zero_negative(s.flags, s.x.wrapping_add(1), Flag::Zero);
}

/// Resetting twice in a row gives the same state as resetting once.
pub proof fn lemma_reset_idempotent(s: CpuState)
    ensures
        s.reset().reset() == s.reset(),
{
}

} // verus!
