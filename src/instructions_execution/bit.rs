use vstd::prelude::*;
use crate::instructions::RegisterTarget;
use crate::memory::MemoryBus;
use crate::registers::{FlagsRegister, Registers};
use super::operands::{
    read_register_operand, register_operand, with_register_operand, write_register_operand,
};

verus! {

/// BIT sets zero when the bit is clear; nothing else changes.
pub open spec fn bit_spec(r: Registers, mem: Seq<u8>, target: RegisterTarget, index: u8) -> Registers {
    Registers {
        f: FlagsRegister { zero: register_operand(r, mem, target) & (1u8 << index) == 0, ..r.f },
        ..r
    }
}

pub open spec fn set_spec(r: Registers, mem: Seq<u8>, target: RegisterTarget, index: u8) -> (
    Registers,
    Seq<u8>,
) {
    with_register_operand(r, mem, target, register_operand(r, mem, target) | (1u8 << index))
}

pub open spec fn res_spec(r: Registers, mem: Seq<u8>, target: RegisterTarget, index: u8) -> (
    Registers,
    Seq<u8>,
) {
    with_register_operand(r, mem, target, register_operand(r, mem, target) & !(1u8 << index))
}

/// BIT index,target: zero reports whether the bit is clear; the operand stays.
pub fn bit(registers: &mut Registers, target: RegisterTarget, bus: &mut MemoryBus, pc: u16, index: u8) -> (r: u16)
    requires
        old(bus).wf(),
        index < 8,
    ensures
        *final(registers) == bit_spec(*old(registers), old(bus)@, target, index),
        final(bus)@ == old(bus)@,
        r == pc.wrapping_add(2),
{
    let value = read_register_operand(registers, bus, target);
    registers.f.zero = value & (1u8 << index) == 0;
    pc.wrapping_add(2)
}

/// SET index,target: the bit becomes 1.
pub fn set(registers: &mut Registers, target: RegisterTarget, bus: &mut MemoryBus, pc: u16, index: u8) -> (r: u16)
    requires
        old(bus).wf(),
        index < 8,
    ensures
        (*final(registers), final(bus)@) == set_spec(*old(registers), old(bus)@, target, index),
        final(bus).wf(),
        r == pc.wrapping_add(2),
{
    let value = read_register_operand(registers, bus, target);
    write_register_operand(registers, bus, target, value | (1u8 << index));
    pc.wrapping_add(2)
}

/// RES index,target: the bit becomes 0.
pub fn res(registers: &mut Registers, target: RegisterTarget, bus: &mut MemoryBus, pc: u16, index: u8) -> (r: u16)
    requires
        old(bus).wf(),
        index < 8,
    ensures
        (*final(registers), final(bus)@) == res_spec(*old(registers), old(bus)@, target, index),
        final(bus).wf(),
        r == pc.wrapping_add(2),
{
    let value = read_register_operand(registers, bus, target);
    write_register_operand(registers, bus, target, value & !(1u8 << index));
    pc.wrapping_add(2)
}

} // verus!
