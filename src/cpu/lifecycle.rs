use vstd::prelude::*;

use super::CPU;
use crate::flags::Flags;
use crate::opcodes::{decode, lemma_decode_well_formed, Instruction};
use crate::semantics::{
    copy_to_origin, CpuState, StepOutcome, PROGRAM_ORIGIN, RESET_VECTOR, STEP_LIMIT_REACHED,
    UNKNOWN_OPCODE,
};

verus! {

impl CPU {
    /// Copies `program` into memory from 0x8000 on, then stores 0x8000 at the reset
    /// vector. Registers are not touched.
    pub fn load(&mut self, program: Vec<u8>)
        requires
            program@.len() <= 0x8000,
        ensures
            final(self)@ == old(self)@.load(program@),
    {
        let ghost start = self@;
        let len = program.len();
        let mut i: usize = 0;
        assert(self.memory@ =~= copy_to_origin(start.mem, program@, 0));
        while i < len
            invariant
                len == program@.len() <= 0x8000,
                i <= len,
                self@ == (CpuState { mem: copy_to_origin(start.mem, program@, i as int), ..start }),
            decreases len - i,
        {
            self.memory[0x8000 + i] = program[i];
            i = i + 1;
            assert(self.memory@ =~= copy_to_origin(start.mem, program@, i as int));
        }
        self.mem_write_u16(RESET_VECTOR, PROGRAM_ORIGIN);
    }

    /// Puts the registers in their power-up state and sets the program counter from the
    /// reset vector. Memory and Y are not touched.
    pub fn reset(&mut self)
        ensures
            final(self)@ == old(self)@.reset(),
    {
        self.a = 0;
        self.x = 0;
        self.flags = Flags::power_up();
        self.counter = self.mem_read_u16(RESET_VECTOR);
    }

    /// One pass of the decode/execute loop: reads the opcode at the program counter,
    /// moves past it and runs the instruction it stands for.
    pub fn step(&mut self) -> (r: StepOutcome)
        ensures
            (final(self)@, r) == old(self)@.step(),
    {
        let op = self.mem_read(self.counter);
        self.counter = self.counter.wrapping_add(1);
        proof {
            lemma_decode_well_formed(op);
        }
        match decode(op) {
            None => StepOutcome::UnknownOpcode,
            Some(Instruction::Brk) => StepOutcome::Halt,
            Some(ins) => {
                self.execute(ins);
                StepOutcome::Continue
            },
        }
    }

    /// Runs the decode/execute loop for at most `max_steps` instructions. Returns `Ok` at
    /// the halt opcode, the unknown-opcode error at a byte outside the instruction table,
    /// and the step-limit error when the budget runs out first.
    pub fn run_with_limit(&mut self, max_steps: u64) -> (r: Result<(), &'static str>)
        ensures
            (final(self)@, r) == old(self)@.run(max_steps as nat),
    {
        let mut remaining = max_steps;
        while remaining > 0
            invariant
                self@.run(remaining as nat) == old(self)@.run(max_steps as nat),
            decreases remaining,
        {
            match self.step() {
                StepOutcome::Halt => {
                    return Ok(());
                },
                StepOutcome::UnknownOpcode => {
                    return Err(UNKNOWN_OPCODE);
                },
                StepOutcome::Continue => {},
            }
            remaining = remaining - 1;
        }
        Err(STEP_LIMIT_REACHED)
    }

    /// Runs the decode/execute loop from the current program counter until the halt opcode
    /// or an unknown opcode. The run is bounded by `u64::MAX` instructions.
    pub fn run(&mut self) -> (r: Result<(), &'static str>)
        ensures
            (final(self)@, r) == old(self)@.run(u64::MAX as nat),
    {
        self.run_with_limit(u64::MAX)
    }

    /// Load, then reset, then run.
    pub fn load_and_run(&mut self, program: Vec<u8>) -> (r: Result<(), &'static str>)
        requires
            program@.len() <= 0x8000,
        ensures
            (final(self)@, r) == old(self)@.load(program@).reset().run(u64::MAX as nat),
    {
        self.load(program);
        self.reset();
        self.run()
    }
}

} // verus!
