//! Operand resolution shared by the execution units: one accessor and one
//! mutator per operand family, so that register and memory-indirect operands
//! are handled in one place.

use vstd::prelude::*;
use crate::instructions::{ArithmeticTarget, RegisterTarget};
use crate::memory::MemoryBus;
use crate::registers::{word, Registers};

verus! {

/// The byte that follows the opcode at `pc`.
pub open spec fn immediate_byte(mem: Seq<u8>, pc: u16) -> u8 {
    mem[pc.wrapping_add(1) as int]
}

/// The little-endian word in the two bytes that follow the opcode at `pc`.
pub open spec fn immediate_word(mem: Seq<u8>, pc: u16) -> u16 {
    word(mem[pc.wrapping_add(2) as int], mem[pc.wrapping_add(1) as int])
}

/// The value of a register or memory-indirect operand.
pub open spec fn register_operand(r: Registers, mem: Seq<u8>, target: RegisterTarget) -> u8 {
    match target {
        RegisterTarget::A => r.a,
        RegisterTarget::B => r.b,
        RegisterTarget::C => r.c,
        RegisterTarget::D => r.d,
        RegisterTarget::E => r.e,
        RegisterTarget::H => r.h,
        RegisterTarget::L => r.l,
        RegisterTarget::HLI => mem[r.hl() as int],
    }
}

/// Registers and memory after `value` is written to the operand.
pub open spec fn with_register_operand(
    r: Registers,
    mem: Seq<u8>,
    target: RegisterTarget,
    value: u8,
) -> (Registers, Seq<u8>) {
    match target {
        RegisterTarget::A => (Registers { a: value, ..r }, mem),
        RegisterTarget::B => (Registers { b: value, ..r }, mem),
        RegisterTarget::C => (Registers { c: value, ..r }, mem),
        RegisterTarget::D => (Registers { d: value, ..r }, mem),
        RegisterTarget::E => (Registers { e: value, ..r }, mem),
        RegisterTarget::H => (Registers { h: value, ..r }, mem),
        RegisterTarget::L => (Registers { l: value, ..r }, mem),
        RegisterTarget::HLI => (r, mem.update(r.hl() as int, value)),
    }
}

/// The value of an operand of the 8-bit arithmetic and logical instructions.
pub open spec fn arithmetic_operand(
    r: Registers,
    mem: Seq<u8>,
    pc: u16,
    target: ArithmeticTarget,
) -> u8 {
    match target {
        ArithmeticTarget::A => r.a,
        ArithmeticTarget::B => r.b,
        ArithmeticTarget::C => r.c,
        ArithmeticTarget::D => r.d,
        ArithmeticTarget::E => r.e,
        ArithmeticTarget::H => r.h,
        ArithmeticTarget::L => r.l,
        ArithmeticTarget::HLI => mem[r.hl() as int],
        ArithmeticTarget::D8 => immediate_byte(mem, pc),
    }
}

/// Length in bytes of an 8-bit arithmetic or logical instruction.
pub open spec fn arithmetic_length(target: ArithmeticTarget) -> u16 {
    match target {
        ArithmeticTarget::D8 => 2,
        _ => 1,
    }
}

pub fn read_immediate_byte(bus: &MemoryBus, pc: u16) -> (r: u8)
    requires
        bus.wf(),
    ensures
        r == immediate_byte(bus@, pc),
{
    bus.read_byte(pc.wrapping_add(1))
}

pub fn read_immediate_word(bus: &MemoryBus, pc: u16) -> (r: u16)
    requires
        bus.wf(),
    ensures
        r == immediate_word(bus@, pc),
{
    let low = bus.read_byte(pc.wrapping_add(1));
    let high = bus.read_byte(pc.wrapping_add(2));
    high as u16 * 256 + low as u16
}

pub fn read_register_operand(registers: &Registers, bus: &MemoryBus, target: RegisterTarget) -> (r:
    u8)
    requires
        bus.wf(),
    ensures
        r == register_operand(*registers, bus@, target),
{
    match target {
        RegisterTarget::A => registers.a,
        RegisterTarget::B => registers.b,
        RegisterTarget::C => registers.c,
        RegisterTarget::D => registers.d,
        RegisterTarget::E => registers.e,
        RegisterTarget::H => registers.h,
        RegisterTarget::L => registers.l,
        RegisterTarget::HLI => bus.read_byte(registers.get_hl()),
    }
}

pub fn write_register_operand(
    registers: &mut Registers,
    bus: &mut MemoryBus,
    target: RegisterTarget,
    value: u8,
)
    requires
        old(bus).wf(),
    ensures
        (*final(registers), final(bus)@) == with_register_operand(
            *old(registers),
            old(bus)@,
            target,
            value,
        ),
        final(bus).wf(),
{
    match target {
        RegisterTarget::A => registers.a = value,
        RegisterTarget::B => registers.b = value,
        RegisterTarget::C => registers.c = value,
        RegisterTarget::D => registers.d = value,
        RegisterTarget::E => registers.e = value,
        RegisterTarget::H => registers.h = value,
        RegisterTarget::L => registers.l = value,
        RegisterTarget::HLI => bus.set_byte(registers.get_hl(), value),
    }
}

/// The operand's value and the instruction's length.
pub fn read_arithmetic_operand(
    registers: &Registers,
    bus: &MemoryBus,
    pc: u16,
    target: ArithmeticTarget,
) -> (r: (u8, u16))
    requires
        bus.wf(),
    ensures
        r == (arithmetic_operand(*registers, bus@, pc, target), arithmetic_length(target)),
{
    match target {
        ArithmeticTarget::A => (registers.a, 1),
        ArithmeticTarget::B => (registers.b, 1),
        ArithmeticTarget::C => (registers.c, 1),
        ArithmeticTarget::D => (registers.d, 1),
        ArithmeticTarget::E => (registers.e, 1),
        ArithmeticTarget::H => (registers.h, 1),
        ArithmeticTarget::L => (registers.l, 1),
        ArithmeticTarget::HLI => (bus.read_byte(registers.get_hl()), 1),
        ArithmeticTarget::D8 => (read_immediate_byte(bus, pc), 2),
    }
}

} // verus!
