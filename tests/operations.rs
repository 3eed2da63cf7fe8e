use nes::cpu::CPU;
use nes::flags::Flag;
use nes::opcodes::AddressingMode;

#[test]
fn updates_zero_flag() {
    let mut cpu = CPU::new();
    cpu.update_flags_zero_neg(0);
    assert!(cpu.flags.contains(Flag::Zero));
}

#[test]
fn updates_neg_flag() {
    let mut cpu = CPU::new();
    cpu.update_flags_zero_neg(0b1000_0000);
    assert!(cpu.flags.contains(Flag::Negative));
}

#[test]
fn updates_overflow_flag_on_accumulator_add() {
    let mut cpu = CPU::new();
    cpu.a = 0x7f;
    cpu.add_to_a(1);
    assert!(cpu.flags.contains(Flag::Overflow));
    assert!(!cpu.flags.contains(Flag::Carry));
}

#[test]
fn updates_carry_flag_on_accumulator_add() {
    let mut cpu = CPU::new();
    cpu.a = 0xff;
    cpu.add_to_a(1);
    assert!(cpu.flags.contains(Flag::Carry));
    assert!(!cpu.flags.contains(Flag::Overflow));
}

#[test]
fn adc_adds_with_carry_flag() {
    let mut cpu = CPU::new();
    cpu.load(vec![0x1]);
    cpu.reset();
    cpu.flags.insert(Flag::Carry);
    cpu.adc(AddressingMode::Immediate);
    assert_eq!(cpu.a, 2);
}

#[test]
fn and_ands() {
    let mut cpu = CPU::new();
    cpu.load(vec![0xAA]);
    cpu.reset();
    cpu.a = 0x55;
    cpu.and(AddressingMode::Immediate);
    assert_eq!(cpu.a, 0x0);
}

#[test]
fn asl_on_accumulator_shifts_and_clears_carry_flag() {
    let mut cpu = CPU::new();
    cpu.a = 0x1;
    cpu.asl_on_accumulator();
    assert_eq!(cpu.a, 0x2);
    assert!(!cpu.flags.contains(Flag::Carry));
}

#[test]
fn asl_on_accumulator_sets_carry_flag() {
    let mut cpu = CPU::new();
    cpu.a = 0x80;
    cpu.asl_on_accumulator();
    assert!(cpu.flags.contains(Flag::Carry));
}

// The memory form of ASL writes the shifted byte back where the operand was.
#[test]
fn asl_shifts_and_clears_carry_flag() {
    let mut cpu = CPU::new();
    cpu.load(vec![0x1]);
    cpu.reset();
    cpu.asl(AddressingMode::Immediate);
    assert_eq!(cpu.mem_read(0x8000), 0x2);
    assert!(!cpu.flags.contains(Flag::Carry));
}

#[test]
fn asl_sets_carry_flag() {
    let mut cpu = CPU::new();
    cpu.load(vec![0x80]);
    cpu.reset();
    cpu.asl(AddressingMode::Immediate);
    assert!(cpu.flags.contains(Flag::Carry));
}

// A taken branch lands on the byte after the displacement plus the displacement.
#[test]
fn branch_branches() {
    let mut cpu = CPU::new();
    cpu.load(vec![0xa]);
    cpu.reset();
    cpu.branch(true);
    assert_eq!(cpu.counter, 0x800b);
}

// BIT keeps the AND result in the accumulator, unlike the canonical 6502.
#[test]
fn bit_sets_zero_flag() {
    let mut cpu = CPU::new();
    cpu.load(vec![0xaa]);
    cpu.reset();
    cpu.a = 0x55;
    cpu.bit(AddressingMode::Immediate);
    assert_eq!(cpu.a, 0x0);
    assert!(cpu.flags.contains(Flag::Zero));
}

#[test]
fn bit_sets_negative_flag() {
    let mut cpu = CPU::new();
    cpu.load(vec![0x80]);
    cpu.reset();
    cpu.a = 0x0;
    cpu.bit(AddressingMode::Immediate);
    assert_eq!(cpu.a, 0x0);
    assert!(cpu.flags.contains(Flag::Negative));
}

#[test]
fn bit_sets_overflow() {
    let mut cpu = CPU::new();
    cpu.load(vec![0x40]);
    cpu.reset();
    cpu.a = 0x40;
    cpu.bit(AddressingMode::Immediate);
    assert_eq!(cpu.a, 0x40);
    assert!(cpu.flags.contains(Flag::Overflow));
}

#[test]
fn clc_clears_carry_flag() {
    let mut cpu = CPU::new();
    cpu.flags.insert(Flag::Carry);
    cpu.clc();
    assert!(!cpu.flags.contains(Flag::Carry));
}

#[test]
fn cld_clears_decimal_flag() {
    let mut cpu = CPU::new();
    cpu.flags.insert(Flag::Decimal);
    cpu.cld();
    assert!(!cpu.flags.contains(Flag::Decimal));
}

#[test]
fn cli_clears_no_interrupt_flag() {
    let mut cpu = CPU::new();
    cpu.flags.insert(Flag::InterruptDisable);
    cpu.cli();
    assert!(!cpu.flags.contains(Flag::InterruptDisable));
}

#[test]
fn clv_clears_overflow_flag() {
    let mut cpu = CPU::new();
    cpu.flags.insert(Flag::Overflow);
    cpu.clv();
    assert!(!cpu.flags.contains(Flag::Overflow));
}

#[test]
fn compare_sets_carry_when_less() {
    let mut cpu = CPU::new();
    cpu.load(vec![0x1]);
    cpu.reset();
    cpu.cmp(AddressingMode::Immediate, 0x2);
    assert!(cpu.flags.contains(Flag::Carry));
}

#[test]
fn compare_clears_carry_when_greater() {
    let mut cpu = CPU::new();
    cpu.load(vec![0x2]);
    cpu.reset();
    cpu.flags.insert(Flag::Carry);
    cpu.cmp(AddressingMode::Immediate, 0x1);
    assert!(!cpu.flags.contains(Flag::Carry));
}

#[test]
fn operations_lda_loads_data() {
    let mut cpu = CPU::new();
    cpu.load(vec![0x05]);
    cpu.reset();
    cpu.lda(AddressingMode::Immediate);
    assert_eq!(cpu.counter, 0x8001);
    assert_eq!(cpu.a, 0x05);
}

#[test]
fn operations_tax_moves_a_to_x() {
    let mut cpu = CPU::new();
    cpu.a = 10;
    cpu.tax();
    assert_eq!(cpu.x, 10);
}

#[test]
fn operations_inx_increments() {
    let mut cpu = CPU::new();
    cpu.inx();
    assert_eq!(cpu.x, 1);
}

#[test]
fn operations_inx_overflows() {
    let mut cpu = CPU::new();
    cpu.x = 0xff;
    cpu.inx();
    assert_eq!(cpu.x, 0);
}

#[test]
fn sta_copies_from_a_to_mem() {
    let mut cpu = CPU::new();
    cpu.load(vec![0xaa]);
    cpu.reset();
    cpu.a = 0xbe;
    cpu.sta(AddressingMode::ZeroPage);
    assert_eq!(cpu.mem_read(0xaa), cpu.a);
}
