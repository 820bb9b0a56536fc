use gb_cpu::cpu::{Fault, CPU};
use gb_cpu::instructions::{ArithmeticTarget, Instruction, RegisterTarget};
use gb_cpu::instructions_execution::misc;
use gb_cpu::memory::MemoryBus;
use gb_cpu::registers::{FlagsRegister, Registers};

fn no_flags() -> FlagsRegister {
    FlagsRegister { zero: false, subtract: false, half_carry: false, carry: false }
}

fn registers() -> Registers {
    Registers { a: 0, b: 0, c: 0, d: 0, e: 0, f: no_flags(), h: 0, l: 0 }
}

#[test]
fn step_adds_b_into_a() {
    let mut bus = MemoryBus::new();
    bus.set_byte(0x0100, 0x80);
    let mut cpu = CPU::new(Registers { a: 0x3C, b: 0xC6, ..registers() }, 0x0100, 0xFFFE, bus);
    assert_eq!(cpu.step(), Ok(()));
    let r = cpu.registers();
    assert_eq!(r.a, 0x02);
    assert!(!r.f.zero);
    assert!(r.f.carry);
    assert!(r.f.half_carry);
    assert!(!r.f.subtract);
    assert_eq!(cpu.pc(), 0x0101);
}

#[test]
fn prefixed_instructions_are_two_bytes_long() {
    for opcode in 0..=255u8 {
        let mut bus = MemoryBus::new();
        bus.set_byte(0x0200, 0xCB);
        bus.set_byte(0x0201, opcode);
        let regs = Registers { h: 0xC0, l: 0x00, ..registers() };
        let mut cpu = CPU::new(regs, 0x0200, 0xFFFE, bus);
        assert_eq!(cpu.step(), Ok(()));
        assert_eq!(cpu.pc(), 0x0202);
    }
}

#[test]
fn prefixed_swap_through_memory() {
    let mut bus = MemoryBus::new();
    bus.set_byte(0x0000, 0xCB);
    bus.set_byte(0x0001, 0x36);
    bus.set_byte(0xC000, 0xF1);
    let mut cpu = CPU::new(Registers { h: 0xC0, l: 0x00, ..registers() }, 0, 0xFFFE, bus);
    assert_eq!(cpu.step(), Ok(()));
    assert_eq!(cpu.bus().read_byte(0xC000), 0x1F);
    assert_eq!(cpu.pc(), 2);
}

#[test]
fn decode_covers_both_tables() {
    let undefined = [0xCB, 0xD3, 0xDB, 0xDD, 0xE3, 0xE4, 0xEB, 0xEC, 0xED, 0xF4, 0xF8, 0xFC, 0xFD];
    for byte in 0..=255u8 {
        assert!(Instruction::from_byte(byte, true).is_some());
        assert_eq!(Instruction::from_byte(byte, false).is_none(), undefined.contains(&byte));
    }
}

#[test]
fn decode_reads_operands_from_bit_fields() {
    assert_eq!(Instruction::from_byte(0x80, false), Some(Instruction::ADD(ArithmeticTarget::B)));
    assert_eq!(Instruction::from_byte(0xFE, false), Some(Instruction::CMP(ArithmeticTarget::D8)));
    assert_eq!(Instruction::from_byte(0x76, false), Some(Instruction::HALT));
    assert_eq!(Instruction::from_byte(0xFF, false), Some(Instruction::RST(0x38)));
    assert_eq!(Instruction::from_byte(0x7E, true), Some(Instruction::BIT(7, RegisterTarget::HLI)));
    assert_eq!(Instruction::from_byte(0x87, true), Some(Instruction::RES(0, RegisterTarget::A)));
    assert_eq!(Instruction::from_byte(0x11, true), Some(Instruction::RL(RegisterTarget::C)));
}

#[test]
fn unknown_opcode_is_a_fault() {
    let mut bus = MemoryBus::new();
    bus.set_byte(0x0150, 0xD3);
    let mut cpu = CPU::new(registers(), 0x0150, 0xFFFE, bus);
    assert_eq!(
        cpu.step(),
        Err(Fault::UnknownInstruction { address: 0x0150, opcode: 0xD3, prefixed: false })
    );
    assert_eq!(cpu.pc(), 0x0150);
}

#[test]
fn halt_is_reported_not_skipped() {
    let mut bus = MemoryBus::new();
    bus.set_byte(0x0010, 0x76);
    let mut cpu = CPU::new(registers(), 0x0010, 0xFFFE, bus);
    assert_eq!(
        cpu.step(),
        Err(Fault::Unimplemented { address: 0x0010, instruction: Instruction::HALT })
    );
    assert_eq!(cpu.pc(), 0x0010);
}

#[test]
fn call_and_return_through_steps() {
    let mut bus = MemoryBus::new();
    bus.set_byte(0x0100, 0xCD);
    bus.set_byte(0x0101, 0x00);
    bus.set_byte(0x0102, 0x20);
    bus.set_byte(0x2000, 0xC9);
    let mut cpu = CPU::new(registers(), 0x0100, 0xFFFE, bus);
    assert_eq!(cpu.step(), Ok(()));
    assert_eq!(cpu.pc(), 0x2000);
    assert_eq!(cpu.sp(), 0xFFFC);
    assert_eq!(cpu.step(), Ok(()));
    assert_eq!(cpu.pc(), 0x0103);
    assert_eq!(cpu.sp(), 0xFFFE);
}

#[test]
fn execute_returns_next_pc_without_moving_it() {
    let mut cpu = CPU::new(Registers { a: 1, ..registers() }, 0x0400, 0xFFFE, MemoryBus::new());
    assert_eq!(cpu.execute(Instruction::NOP), Ok(0x0401));
    assert_eq!(cpu.execute(Instruction::CPL), Ok(0x0401));
    assert_eq!(cpu.registers().a, 0xFE);
    assert_eq!(cpu.pc(), 0x0400);
    assert_eq!(
        cpu.execute(Instruction::EI),
        Err(Fault::Unimplemented { address: 0x0400, instruction: Instruction::EI })
    );
}

#[test]
fn daa_after_bcd_addition() {
    let mut r = Registers { a: 0x45, b: 0x38, ..registers() };
    let mut bus = MemoryBus::new();
    gb_cpu::instructions_execution::arithmetic::add(&mut r, ArithmeticTarget::B, &mut bus, 0);
    assert_eq!(r.a, 0x7D);
    assert_eq!(misc::daa(&mut r, 0), 1);
    assert_eq!(r.a, 0x83);
    assert!(!r.f.carry);
    r.a = 0x99;
    r.f = no_flags();
    misc::daa(&mut r, 0);
    assert_eq!(r.a, 0x99);
    r.a = 0x9A;
    misc::daa(&mut r, 0);
    assert_eq!(r.a, 0x00);
    assert!(r.f.carry);
    assert!(r.f.zero);
}

#[test]
fn daa_after_bcd_subtraction() {
    let mut r = Registers { a: 0x0F, f: FlagsRegister { subtract: true, half_carry: true, ..no_flags() }, ..registers() };
    misc::daa(&mut r, 0);
    assert_eq!(r.a, 0x09);
    assert!(r.f.subtract);
    assert!(!r.f.half_carry);
}

#[test]
fn carry_flag_instructions() {
    let mut r = registers();
    assert_eq!(misc::scf(&mut r, 9), 10);
    assert!(r.f.carry);
    assert_eq!(misc::ccf(&mut r, 9), 10);
    assert!(!r.f.carry);
    misc::ccf(&mut r, 9);
    assert!(r.f.carry);
}

#[test]
fn complement_sets_subtract_and_half_carry() {
    let mut r = Registers { a: 0x35, ..registers() };
    assert_eq!(misc::cpl(&mut r, 0xFFFF), 0x0000);
    assert_eq!(r.a, 0xCA);
    assert!(r.f.subtract);
    assert!(r.f.half_carry);
}

#[test]
fn one_byte_placeholders_advance_by_one() {
    let mut r = registers();
    assert_eq!(misc::nop(0xFFFF), 0);
    assert_eq!(misc::reti(&mut r, 1), 2);
    assert_eq!(misc::stop(&mut r, 1), 2);
    assert_eq!(misc::halt(&mut r, 1), 2);
    assert_eq!(misc::di(&mut r, 1), 2);
    assert_eq!(misc::ei(&mut r, 1), 2);
    assert_eq!(r, registers());
}

#[test]
fn flags_byte_round_trip() {
    let f = FlagsRegister { zero: true, subtract: false, half_carry: true, carry: true };
    assert_eq!(f.to_byte(), 0xB0);
    assert_eq!(FlagsRegister::from_byte(0xB0), f);
    assert_eq!(FlagsRegister::from_byte(0xBF), f);
}
