use vstd::prelude::*;
use crate::instructions::RegisterTarget;
use crate::memory::MemoryBus;
use crate::registers::{FlagsRegister, Registers};
use super::operands::{
    read_register_operand, register_operand, with_register_operand, write_register_operand,
};

verus! {

pub open spec fn bit_7(value: u8) -> bool {
    value & 0x80 != 0
}

pub open spec fn bit_0(value: u8) -> bool {
    value & 0x01 != 0
}

/// Left rotation; bit 7 comes round to bit 0.
pub open spec fn rlc_value(value: u8) -> u8 {
    (value << 1) | (value >> 7)
}

/// Right rotation; bit 0 comes round to bit 7.
pub open spec fn rrc_value(value: u8) -> u8 {
    (value >> 1) | (value << 7)
}

/// Left shift with the carry flag in bit 0.
pub open spec fn rl_value(value: u8, carry: bool) -> u8 {
    (value << 1) | (if carry {
        0x01u8
    } else {
        0x00u8
    })
}

/// Right shift with the carry flag in bit 7.
pub open spec fn rr_value(value: u8, carry: bool) -> u8 {
    (value >> 1) | (if carry {
        0x80u8
    } else {
        0x00u8
    })
}

/// Registers and memory once the operand holds `value` and the carry flag
/// is `carry`; the other flags are left as they were.
pub open spec fn with_result_and_carry(
    r: Registers,
    mem: Seq<u8>,
    target: RegisterTarget,
    value: u8,
    carry: bool,
) -> (Registers, Seq<u8>) {
    with_register_operand(Registers { f: FlagsRegister { carry, ..r.f }, ..r }, mem, target, value)
}

pub open spec fn rlc_spec(r: Registers, mem: Seq<u8>, target: RegisterTarget) -> (
    Registers,
    Seq<u8>,
) {
    let value = register_operand(r, mem, target);
    with_result_and_carry(r, mem, target, rlc_value(value), bit_7(value))
}

pub open spec fn rrc_spec(r: Registers, mem: Seq<u8>, target: RegisterTarget) -> (
    Registers,
    Seq<u8>,
) {
    let value = register_operand(r, mem, target);
    with_result_and_carry(r, mem, target, rrc_value(value), bit_0(value))
}

/// RL leaves the carry flag as it was.
pub open spec fn rl_spec(r: Registers, mem: Seq<u8>, target: RegisterTarget) -> (
    Registers,
    Seq<u8>,
) {
    with_register_operand(r, mem, target, rl_value(register_operand(r, mem, target), r.f.carry))
}

/// RR leaves the carry flag as it was.
pub open spec fn rr_spec(r: Registers, mem: Seq<u8>, target: RegisterTarget) -> (
    Registers,
    Seq<u8>,
) {
    with_register_operand(r, mem, target, rr_value(register_operand(r, mem, target), r.f.carry))
}

/// RLCA: A rotated left, bit 7 into carry and bit 0. One byte long.
pub fn rlca(registers: &mut Registers, pc: u16) -> (r: u16)
    ensures
        *final(registers) == (Registers {
            a: rlc_value(old(registers).a),
            f: FlagsRegister { carry: bit_7(old(registers).a), ..old(registers).f },
            ..*old(registers)
        }),
        r == pc.wrapping_add(1),
{
    let value = registers.a;
    registers.f.carry = value & 0x80 != 0;
    registers.a = (value << 1) | (value >> 7);
    pc.wrapping_add(1)
}

/// RRCA: A rotated right, bit 0 into carry and bit 7. One byte long.
pub fn rrca(registers: &mut Registers, pc: u16) -> (r: u16)
    ensures
        *final(registers) == (Registers {
            a: rrc_value(old(registers).a),
            f: FlagsRegister { carry: bit_0(old(registers).a), ..old(registers).f },
            ..*old(registers)
        }),
        r == pc.wrapping_add(1),
{
    let value = registers.a;
    registers.f.carry = value & 0x01 != 0;
    registers.a = (value >> 1) | (value << 7);
    pc.wrapping_add(1)
}

/// RLA: A shifted left with the carry flag into bit 0; the flags stay.
pub fn rla(registers: &mut Registers, pc: u16) -> (r: u16)
    ensures
        *final(registers) == (Registers {
            a: rl_value(old(registers).a, old(registers).f.carry),
            ..*old(registers)
        }),
        r == pc.wrapping_add(1),
{
    let carry: u8 = if registers.f.carry {
        0x01
    } else {
        0x00
    };
    registers.a = (registers.a << 1) | carry;
    pc.wrapping_add(1)
}

/// RRA: A shifted right with the carry flag into bit 7; the flags stay.
pub fn rra(registers: &mut Registers, pc: u16) -> (r: u16)
    ensures
        *final(registers) == (Registers {
            a: rr_value(old(registers).a, old(registers).f.carry),
            ..*old(registers)
        }),
        r == pc.wrapping_add(1),
{
    let carry: u8 = if registers.f.carry {
        0x80
    } else {
        0x00
    };
    registers.a = (registers.a >> 1) | carry;
    pc.wrapping_add(1)
}

/// RLC target. Two bytes long, as every CB-prefixed instruction.
pub fn rlc(registers: &mut Registers, pc: u16, bus: &mut MemoryBus, target: RegisterTarget) -> (r:
    u16)
    requires
        old(bus).wf(),
    ensures
        (*final(registers), final(bus)@) == rlc_spec(*old(registers), old(bus)@, target),
        final(bus).wf(),
        r == pc.wrapping_add(2),
{
    let value = read_register_operand(registers, bus, target);
    registers.f.carry = value & 0x80 != 0;
    write_register_operand(registers, bus, target, (value << 1) | (value >> 7));
    pc.wrapping_add(2)
}

/// RRC target.
pub fn rrc(registers: &mut Registers, pc: u16, bus: &mut MemoryBus, target: RegisterTarget) -> (r:
    u16)
    requires
        old(bus).wf(),
    ensures
        (*final(registers), final(bus)@) == rrc_spec(*old(registers), old(bus)@, target),
        final(bus).wf(),
        r == pc.wrapping_add(2),
{
    let value = read_register_operand(registers, bus, target);
    registers.f.carry = value & 0x01 != 0;
    write_register_operand(registers, bus, target, (value >> 1) | (value << 7));
    pc.wrapping_add(2)
}

/// RL target: the carry flag shifts in at bit 0 and is not updated.
pub fn rl(registers: &mut Registers, pc: u16, bus: &mut MemoryBus, target: RegisterTarget) -> (r:
    u16)
    requires
        old(bus).wf(),
    ensures
        (*final(registers), final(bus)@) == rl_spec(*old(registers), old(bus)@, target),
        final(bus).wf(),
        r == pc.wrapping_add(2),
{
    let value = read_register_operand(registers, bus, target);
    let carry: u8 = if registers.f.carry {
        0x01
    } else {
        0x00
    };
    write_register_operand(registers, bus, target, (value << 1) | carry);
    pc.wrapping_add(2)
}

/// RR target: the carry flag shifts in at bit 7 and is not updated.
pub fn rr(registers: &mut Registers, pc: u16, bus: &mut MemoryBus, target: RegisterTarget) -> (r:
    u16)
    requires
        old(bus).wf(),
    ensures
        (*final(registers), final(bus)@) == rr_spec(*old(registers), old(bus)@, target),
        final(bus).wf(),
        r == pc.wrapping_add(2),
{
    let value = read_register_operand(registers, bus, target);
    let carry: u8 = if registers.f.carry {
        0x80
    } else {
        0x00
    };
    write_register_operand(registers, bus, target, (value >> 1) | carry);
    pc.wrapping_add(2)
}

} // verus!
