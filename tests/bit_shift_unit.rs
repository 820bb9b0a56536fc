use gb_cpu::instructions::RegisterTarget;
use gb_cpu::instructions_execution::{bit, rotate, shift};
use gb_cpu::memory::MemoryBus;
use gb_cpu::registers::{FlagsRegister, Registers};

fn no_flags() -> FlagsRegister {
    FlagsRegister { zero: false, subtract: false, half_carry: false, carry: false }
}

fn registers() -> Registers {
    Registers { a: 0, b: 0, c: 0, d: 0, e: 0, f: no_flags(), h: 0, l: 0 }
}

#[test]
fn rlc_copies_bit_seven_to_carry_and_bit_zero() {
    let mut r = Registers { b: 0x85, ..registers() };
    let mut bus = MemoryBus::new();
    let next = rotate::rlc(&mut r, 0x10, &mut bus, RegisterTarget::B);
    assert_eq!(r.b, 0x0B);
    assert!(r.f.carry);
    assert_eq!(next, 0x12);
}

#[test]
fn rrc_copies_bit_zero_to_carry_and_bit_seven() {
    let mut r = Registers { c: 0x01, ..registers() };
    let mut bus = MemoryBus::new();
    rotate::rrc(&mut r, 0, &mut bus, RegisterTarget::C);
    assert_eq!(r.c, 0x80);
    assert!(r.f.carry);
}

#[test]
fn rl_shifts_in_old_carry_and_keeps_it() {
    let mut r = Registers { d: 0x80, f: FlagsRegister { carry: true, ..no_flags() }, ..registers() };
    let mut bus = MemoryBus::new();
    rotate::rl(&mut r, 0, &mut bus, RegisterTarget::D);
    assert_eq!(r.d, 0x01);
    assert!(r.f.carry);
    r.f.carry = false;
    rotate::rl(&mut r, 0, &mut bus, RegisterTarget::D);
    assert_eq!(r.d, 0x02);
    assert!(!r.f.carry);
}

#[test]
fn rr_shifts_in_old_carry_at_bit_seven() {
    let mut r = Registers { e: 0x02, f: FlagsRegister { carry: true, ..no_flags() }, ..registers() };
    let mut bus = MemoryBus::new();
    rotate::rr(&mut r, 0, &mut bus, RegisterTarget::E);
    assert_eq!(r.e, 0x81);
    assert!(r.f.carry);
}

#[test]
fn accumulator_rotates_are_one_byte_long() {
    let mut r = Registers { a: 0x81, ..registers() };
    assert_eq!(rotate::rlca(&mut r, 5), 6);
    assert_eq!(r.a, 0x03);
    assert!(r.f.carry);
    assert_eq!(rotate::rrca(&mut r, 5), 6);
    assert_eq!(r.a, 0x81);
    assert!(r.f.carry);
    r.f.carry = false;
    assert_eq!(rotate::rla(&mut r, 5), 6);
    assert_eq!(r.a, 0x02);
    r.f.carry = true;
    assert_eq!(rotate::rra(&mut r, 5), 6);
    assert_eq!(r.a, 0x81);
}

#[test]
fn sla_takes_bit_seven_into_carry() {
    let mut r = Registers { h: 0x82, ..registers() };
    let mut bus = MemoryBus::new();
    shift::sla(&mut r, 0, RegisterTarget::H, &mut bus);
    assert_eq!(r.h, 0x04);
    assert!(r.f.carry);
    r.h = 0x41;
    shift::sla(&mut r, 0, RegisterTarget::H, &mut bus);
    assert_eq!(r.h, 0x83);
    assert!(!r.f.carry);
}

#[test]
fn sla_shifts_its_own_operand() {
    let mut r = Registers { a: 0xFF, b: 0x01, ..registers() };
    let mut bus = MemoryBus::new();
    shift::sla(&mut r, 0, RegisterTarget::B, &mut bus);
    assert_eq!(r.b, 0x03);
    assert_eq!(r.a, 0xFF);
}

#[test]
fn sra_keeps_the_sign_bit() {
    let mut r = Registers { l: 0x81, ..registers() };
    let mut bus = MemoryBus::new();
    shift::sra(&mut r, 0, RegisterTarget::L, &mut bus);
    assert_eq!(r.l, 0xC0);
    assert!(r.f.carry);
}

#[test]
fn swap_exchanges_nibbles() {
    let mut r = Registers { a: 0xAB, ..registers() };
    let mut bus = MemoryBus::new();
    shift::swap(&mut r, 0, RegisterTarget::A, &mut bus);
    assert_eq!(r.a, 0xBA);
    assert_eq!(r.f, no_flags());
}

#[test]
fn srl_clears_bit_seven() {
    let mut r = Registers { b: 0xFF, ..registers() };
    let mut bus = MemoryBus::new();
    shift::srl(&mut r, 0, RegisterTarget::B, &mut bus);
    assert_eq!(r.b, 0x7F);
    assert!(r.f.carry);
}

#[test]
fn shifts_through_memory_at_hl() {
    let mut r = Registers { h: 0xC1, l: 0x23, ..registers() };
    let mut bus = MemoryBus::new();
    bus.set_byte(0xC123, 0x12);
    let next = shift::swap(&mut r, 0x300, RegisterTarget::HLI, &mut bus);
    assert_eq!(bus.read_byte(0xC123), 0x21);
    assert_eq!(next, 0x302);
    shift::srl(&mut r, 0, RegisterTarget::HLI, &mut bus);
    assert_eq!(bus.read_byte(0xC123), 0x10);
    assert!(r.f.carry);
}

#[test]
fn bit_reports_a_clear_bit_as_zero() {
    let mut r = Registers { c: 0b0000_1000, f: FlagsRegister { carry: true, ..no_flags() }, ..registers() };
    let mut bus = MemoryBus::new();
    let next = bit::bit(&mut r, RegisterTarget::C, &mut bus, 0, 3);
    assert!(!r.f.zero);
    assert!(r.f.carry);
    assert_eq!(next, 2);
    bit::bit(&mut r, RegisterTarget::C, &mut bus, 0, 7);
    assert!(r.f.zero);
    assert_eq!(r.c, 0b0000_1000);
}

#[test]
fn set_and_res_change_one_bit() {
    let mut r = Registers { d: 0x00, ..registers() };
    let mut bus = MemoryBus::new();
    bit::set(&mut r, RegisterTarget::D, &mut bus, 0, 7);
    assert_eq!(r.d, 0x80);
    bit::set(&mut r, RegisterTarget::D, &mut bus, 0, 0);
    assert_eq!(r.d, 0x81);
    bit::res(&mut r, RegisterTarget::D, &mut bus, 0, 7);
    assert_eq!(r.d, 0x01);
}

#[test]
fn set_and_res_through_memory_at_hl() {
    let mut r = Registers { h: 0xFF, l: 0x80, ..registers() };
    let mut bus = MemoryBus::new();
    bus.set_byte(0xFF80, 0xF0);
    bit::res(&mut r, RegisterTarget::HLI, &mut bus, 0, 4);
    assert_eq!(bus.read_byte(0xFF80), 0xE0);
    bit::set(&mut r, RegisterTarget::HLI, &mut bus, 0, 1);
    assert_eq!(bus.read_byte(0xFF80), 0xE2);
}
