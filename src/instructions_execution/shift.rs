use vstd::prelude::*;
use crate::instructions::RegisterTarget;
use crate::memory::MemoryBus;
use crate::registers::Registers;
use super::operands::{
    read_register_operand, register_operand, with_register_operand, write_register_operand,
};
use super::rotate::{bit_0, bit_7, with_result_and_carry};

verus! {

/// Left shift that keeps bit 0 of the operand.
pub open spec fn sla_value(value: u8) -> u8 {
    (value << 1) | (value & 0x01)
}

/// Arithmetic right shift: bit 7 is kept.
pub open spec fn sra_value(value: u8) -> u8 {
    (value >> 1) | (value & 0x80)
}

/// The two nibbles exchanged.
pub open spec fn swap_value(value: u8) -> u8 {
    (value << 4) | (value >> 4)
}

/// Logical right shift: bit 7 becomes 0.
pub open spec fn srl_value(value: u8) -> u8 {
    value >> 1
}

pub open spec fn sla_spec(r: Registers, mem: Seq<u8>, target: RegisterTarget) -> (
    Registers,
    Seq<u8>,
) {
    let value = register_operand(r, mem, target);
    with_result_and_carry(r, mem, target, sla_value(value), bit_7(value))
}

pub open spec fn sra_spec(r: Registers, mem: Seq<u8>, target: RegisterTarget) -> (
    Registers,
    Seq<u8>,
) {
    let value = register_operand(r, mem, target);
    with_result_and_carry(r, mem, target, sra_value(value), bit_0(value))
}

/// SWAP sets no flags.
pub open spec fn swap_spec(r: Registers, mem: Seq<u8>, target: RegisterTarget) -> (
    Registers,
    Seq<u8>,
) {
    with_register_operand(r, mem, target, swap_value(register_operand(r, mem, target)))
}

pub open spec fn srl_spec(r: Registers, mem: Seq<u8>, target: RegisterTarget) -> (
    Registers,
    Seq<u8>,
) {
    let value = register_operand(r, mem, target);
    with_result_and_carry(r, mem, target, srl_value(value), bit_0(value))
}

/// SLA target: bit 7 goes to carry; the operand shifts left keeping bit 0.
pub fn sla(registers: &mut Registers, pc: u16, target: RegisterTarget, bus: &mut MemoryBus) -> (r:
    u16)
    requires
        old(bus).wf(),
    ensures
        (*final(registers), final(bus)@) == sla_spec(*old(registers), old(bus)@, target),
        final(bus).wf(),
        r == pc.wrapping_add(2),
{
    let value = read_register_operand(registers, bus, target);
    registers.f.carry = value & 0x80 != 0;
    write_register_operand(registers, bus, target, (value << 1) | (value & 0x01));
    pc.wrapping_add(2)
}

/// SRA target: bit 0 goes to carry; the operand shifts right keeping bit 7.
pub fn sra(registers: &mut Registers, pc: u16, target: RegisterTarget, bus: &mut MemoryBus) -> (r:
    u16)
    requires
        old(bus).wf(),
    ensures
        (*final(registers), final(bus)@) == sra_spec(*old(registers), old(bus)@, target),
        final(bus).wf(),
        r == pc.wrapping_add(2),
{
    let value = read_register_operand(registers, bus, target);
    registers.f.carry = value & 0x01 != 0;
    write_register_operand(registers, bus, target, (value >> 1) | (value & 0x80));
    pc.wrapping_add(2)
}

/// SWAP target: the high and low nibbles trade places.
pub fn swap(registers: &mut Registers, pc: u16, target: RegisterTarget, bus: &mut MemoryBus) -> (r:
    u16)
    requires
        old(bus).wf(),
    ensures
        (*final(registers), final(bus)@) == swap_spec(*old(registers), old(bus)@, target),
        final(bus).wf(),
        r == pc.wrapping_add(2),
{
    let value = read_register_operand(registers, bus, target);
    write_register_operand(registers, bus, target, (value << 4) | (value >> 4));
    pc.wrapping_add(2)
}

/// SRL target: bit 0 goes to carry; the operand shifts right with 0 into bit 7.
pub fn srl(registers: &mut Registers, pc: u16, target: RegisterTarget, bus: &mut MemoryBus) -> (r:
    u16)
    requires
        old(bus).wf(),
    ensures
        (*final(registers), final(bus)@) == srl_spec(*old(registers), old(bus)@, target),
        final(bus).wf(),
        r == pc.wrapping_add(2),
{
    let value = read_register_operand(registers, bus, target);
    registers.f.carry = value & 0x01 != 0;
    write_register_operand(registers, bus, target, value >> 1);
    pc.wrapping_add(2)
}

} // verus!
