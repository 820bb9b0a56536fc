use gb_cpu::instructions::{ArithmeticTarget, ArithmeticTargetLong, IncDecTarget};
use gb_cpu::instructions_execution::{arithmetic, conditional, logical};
use gb_cpu::memory::MemoryBus;
use gb_cpu::registers::{FlagsRegister, Registers};

fn flags(zero: bool, subtract: bool, half_carry: bool, carry: bool) -> FlagsRegister {
    FlagsRegister { zero, subtract, half_carry, carry }
}

fn registers() -> Registers {
    Registers { a: 0, b: 0, c: 0, d: 0, e: 0, f: flags(false, false, false, false), h: 0, l: 0 }
}

#[test]
fn add_wraps_to_zero_with_both_carries() {
    let mut r = Registers { a: 0xFF, b: 0x01, ..registers() };
    let mut bus = MemoryBus::new();
    let next = arithmetic::add(&mut r, ArithmeticTarget::B, &mut bus, 0x100);
    assert_eq!(r.a, 0x00);
    assert_eq!(r.f, flags(true, false, true, true));
    assert_eq!(next, 0x101);
}

#[test]
fn add_half_carry_boundary() {
    let mut r = Registers { a: 0x0F, c: 0x01, ..registers() };
    let mut bus = MemoryBus::new();
    arithmetic::add(&mut r, ArithmeticTarget::C, &mut bus, 0);
    assert_eq!(r.a, 0x10);
    assert!(r.f.half_carry);
    assert!(!r.f.carry);
    assert!(!r.f.zero);
}

#[test]
fn sub_borrow_from_zero() {
    let mut r = Registers { a: 0x00, d: 0x01, ..registers() };
    let mut bus = MemoryBus::new();
    arithmetic::sub(&mut r, ArithmeticTarget::D, &mut bus, 0);
    assert_eq!(r.a, 0xFF);
    assert_eq!(r.f, flags(false, true, true, true));
}

#[test]
fn add_immediate_is_two_bytes_long() {
    let mut r = Registers { a: 0x10, ..registers() };
    let mut bus = MemoryBus::new();
    bus.set_byte(0x201, 0x22);
    let next = arithmetic::add(&mut r, ArithmeticTarget::D8, &mut bus, 0x200);
    assert_eq!(r.a, 0x32);
    assert_eq!(next, 0x202);
}

#[test]
fn add_reads_memory_at_hl() {
    let mut r = Registers { a: 0x01, h: 0xC0, l: 0x10, ..registers() };
    let mut bus = MemoryBus::new();
    bus.set_byte(0xC010, 0x41);
    let next = arithmetic::add(&mut r, ArithmeticTarget::HLI, &mut bus, 0);
    assert_eq!(r.a, 0x42);
    assert_eq!(next, 1);
}

#[test]
fn add_carry_counts_the_carry_in() {
    let mut r = Registers { a: 0x0E, b: 0x01, f: flags(false, false, false, true), ..registers() };
    let mut bus = MemoryBus::new();
    arithmetic::add_carry(&mut r, ArithmeticTarget::B, &mut bus, 0);
    assert_eq!(r.a, 0x10);
    assert_eq!(r.f, flags(false, false, true, false));
}

#[test]
fn add_carry_with_full_operand_overflows() {
    let mut r = Registers { a: 0x00, b: 0xFF, f: flags(false, false, false, true), ..registers() };
    let mut bus = MemoryBus::new();
    arithmetic::add_carry(&mut r, ArithmeticTarget::B, &mut bus, 0);
    assert_eq!(r.a, 0x00);
    assert_eq!(r.f, flags(true, false, true, true));
}

#[test]
fn sub_carry_counts_the_borrow_in() {
    let mut r = Registers { a: 0x10, b: 0x0F, f: flags(false, false, false, true), ..registers() };
    let mut bus = MemoryBus::new();
    arithmetic::sub_carry(&mut r, ArithmeticTarget::B, &mut bus, 0);
    assert_eq!(r.a, 0x00);
    assert_eq!(r.f, flags(true, true, true, false));
}

#[test]
fn sub_carry_borrows_past_zero() {
    let mut r = Registers { a: 0x00, b: 0xFF, f: flags(false, false, false, true), ..registers() };
    let mut bus = MemoryBus::new();
    arithmetic::sub_carry(&mut r, ArithmeticTarget::B, &mut bus, 0);
    assert_eq!(r.a, 0x00);
    assert_eq!(r.f, flags(true, true, true, true));
}

#[test]
fn add_long_into_hl_sets_twelve_bit_half_carry() {
    let mut r = Registers { h: 0x0F, l: 0xFF, b: 0x00, c: 0x01, f: flags(true, true, false, false), ..registers() };
    let mut bus = MemoryBus::new();
    let next = arithmetic::add_long(&mut r, ArithmeticTargetLong::BC, &mut bus, 0x10, 0);
    assert_eq!(r.get_hl(), 0x1000);
    assert_eq!(r.f, flags(true, false, true, false));
    assert_eq!(next, 0x11);
}

#[test]
fn add_long_wraps_and_sets_carry() {
    let mut r = Registers { h: 0xFF, l: 0xFF, d: 0x00, e: 0x02, ..registers() };
    let mut bus = MemoryBus::new();
    arithmetic::add_long(&mut r, ArithmeticTargetLong::DE, &mut bus, 0, 0);
    assert_eq!(r.get_hl(), 0x0001);
    assert!(r.f.carry);
    assert!(r.f.half_carry);
    assert!(!r.f.zero);
}

#[test]
fn add_long_sp_adds_sp_into_hl() {
    let mut r = Registers { h: 0x12, l: 0x34, ..registers() };
    let mut bus = MemoryBus::new();
    arithmetic::add_long(&mut r, ArithmeticTargetLong::SP, &mut bus, 0, 0x0100);
    assert_eq!(r.get_hl(), 0x1334);
}

#[test]
fn add_long_immediate_is_unsigned_and_two_bytes_long() {
    let mut r = Registers { h: 0x00, l: 0x10, ..registers() };
    let mut bus = MemoryBus::new();
    bus.set_byte(0x51, 0xF0);
    let next = arithmetic::add_long(&mut r, ArithmeticTargetLong::S8, &mut bus, 0x50, 0xFFFE);
    assert_eq!(r.get_hl(), 0x0100);
    assert_eq!(next, 0x52);
}

#[test]
fn inc_byte_leaves_carry_alone() {
    let mut r = Registers { b: 0xFF, f: flags(false, true, false, true), ..registers() };
    let mut bus = MemoryBus::new();
    let mut sp: u16 = 0;
    let next = arithmetic::exec_inc_dec(&mut r, IncDecTarget::B, &mut bus, 7, &mut sp, true);
    assert_eq!(r.b, 0x00);
    assert_eq!(r.f, flags(true, false, true, true));
    assert_eq!(next, 8);
}

#[test]
fn dec_byte_half_borrow() {
    let mut r = Registers { e: 0x10, ..registers() };
    let mut bus = MemoryBus::new();
    let mut sp: u16 = 0;
    arithmetic::exec_inc_dec(&mut r, IncDecTarget::E, &mut bus, 0, &mut sp, false);
    assert_eq!(r.e, 0x0F);
    assert_eq!(r.f, flags(false, true, true, false));
}

#[test]
fn dec_byte_to_zero() {
    let mut r = Registers { a: 0x01, ..registers() };
    let mut bus = MemoryBus::new();
    let mut sp: u16 = 0;
    arithmetic::exec_inc_dec(&mut r, IncDecTarget::A, &mut bus, 0, &mut sp, false);
    assert_eq!(r.a, 0x00);
    assert_eq!(r.f, flags(true, true, false, false));
}

#[test]
fn inc_memory_at_hl() {
    let mut r = Registers { h: 0xD0, l: 0x00, ..registers() };
    let mut bus = MemoryBus::new();
    bus.set_byte(0xD000, 0x0F);
    let mut sp: u16 = 0;
    arithmetic::exec_inc_dec(&mut r, IncDecTarget::HLI, &mut bus, 0, &mut sp, true);
    assert_eq!(bus.read_byte(0xD000), 0x10);
    assert!(r.f.half_carry);
}

#[test]
fn inc_pair_wraps_and_leaves_zero_alone() {
    let mut r = Registers { b: 0xFF, c: 0xFF, f: flags(false, false, false, false), ..registers() };
    let mut bus = MemoryBus::new();
    let mut sp: u16 = 0;
    arithmetic::exec_inc_dec(&mut r, IncDecTarget::BC, &mut bus, 0, &mut sp, true);
    assert_eq!(r.get_bc(), 0x0000);
    assert_eq!(r.f, flags(false, false, true, true));
}

#[test]
fn dec_sp_wraps() {
    let mut r = registers();
    let mut bus = MemoryBus::new();
    let mut sp: u16 = 0;
    arithmetic::exec_inc_dec(&mut r, IncDecTarget::SP, &mut bus, 0, &mut sp, false);
    assert_eq!(sp, 0xFFFF);
    assert_eq!(r.f, flags(false, true, true, true));
}

#[test]
fn inc_de_and_hl() {
    let mut r = Registers { d: 0x12, e: 0xFF, h: 0x80, l: 0x00, ..registers() };
    let mut bus = MemoryBus::new();
    let mut sp: u16 = 0;
    arithmetic::exec_inc_dec(&mut r, IncDecTarget::DE, &mut bus, 0, &mut sp, true);
    arithmetic::exec_inc_dec(&mut r, IncDecTarget::HL, &mut bus, 0, &mut sp, false);
    assert_eq!(r.get_de(), 0x1300);
    assert_eq!(r.get_hl(), 0x7FFF);
}

#[test]
fn and_clears_carry_flags() {
    let mut r = Registers { a: 0xF0, b: 0x0F, f: flags(false, true, true, true), ..registers() };
    let mut bus = MemoryBus::new();
    logical::and(&mut r, ArithmeticTarget::B, &mut bus, 0);
    assert_eq!(r.a, 0x00);
    assert_eq!(r.f, flags(true, false, false, false));
}

#[test]
fn or_and_xor_results() {
    let mut r = Registers { a: 0xF0, b: 0x0F, ..registers() };
    let mut bus = MemoryBus::new();
    logical::or(&mut r, ArithmeticTarget::B, &mut bus, 0);
    assert_eq!(r.a, 0xFF);
    assert!(!r.f.zero);
    logical::xor(&mut r, ArithmeticTarget::A, &mut bus, 0);
    assert_eq!(r.a, 0x00);
    assert!(r.f.zero);
}

#[test]
fn compare_sets_only_zero() {
    let mut r = Registers { a: 0x42, c: 0x42, f: flags(false, false, true, true), ..registers() };
    let mut bus = MemoryBus::new();
    let next = conditional::cmp(&mut r, ArithmeticTarget::C, 3, &mut bus);
    assert_eq!(r.a, 0x42);
    assert_eq!(r.f, flags(true, false, true, true));
    assert_eq!(next, 4);
    r.c = 0x43;
    conditional::cmp(&mut r, ArithmeticTarget::C, 3, &mut bus);
    assert!(!r.f.zero);
}
