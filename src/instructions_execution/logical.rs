use vstd::prelude::*;
use crate::instructions::ArithmeticTarget;
use crate::memory::MemoryBus;
use crate::registers::{FlagsRegister, Registers};
use super::operands::{arithmetic_length, arithmetic_operand, read_arithmetic_operand};

verus! {

/// A holds `result`; zero reports it, the other flags are cleared.
pub open spec fn logical_registers(r: Registers, result: u8) -> Registers {
    Registers {
        a: result,
        f: FlagsRegister { zero: result == 0, subtract: false, half_carry: false, carry: false },
        ..r
    }
}

/// AND A,target.
pub fn and(registers: &mut Registers, target: ArithmeticTarget, bus: &mut MemoryBus, pc: u16) -> (r:
    u16)
    requires
        old(bus).wf(),
    ensures
        *final(registers) == logical_registers(
            *old(registers),
            old(registers).a & arithmetic_operand(*old(registers), old(bus)@, pc, target),
        ),
        final(bus)@ == old(bus)@,
        r == pc.wrapping_add(arithmetic_length(target)),
{
    let (value, length) = read_arithmetic_operand(registers, bus, pc, target);
    let result = registers.a & value;
    registers.a = result;
    registers.f = FlagsRegister { zero: result == 0, subtract: false, half_carry: false, carry: false };
    pc.wrapping_add(length)
}

/// OR A,target.
pub fn or(registers: &mut Registers, target: ArithmeticTarget, bus: &mut MemoryBus, pc: u16) -> (r:
    u16)
    requires
        old(bus).wf(),
    ensures
        *final(registers) == logical_registers(
            *old(registers),
            old(registers).a | arithmetic_operand(*old(registers), old(bus)@, pc, target),
        ),
        final(bus)@ == old(bus)@,
        r == pc.wrapping_add(arithmetic_length(target)),
{
    let (value, length) = read_arithmetic_operand(registers, bus, pc, target);
    let result = registers.a | value;
    registers.a = result;
    registers.f = FlagsRegister { zero: result == 0, subtract: false, half_carry: false, carry: false };
    pc.wrapping_add(length)
}

/// XOR A,target.
pub fn xor(registers: &mut Registers, target: ArithmeticTarget, bus: &mut MemoryBus, pc: u16) -> (r:
    u16)
    requires
        old(bus).wf(),
    ensures
        *final(registers) == logical_registers(
            *old(registers),
            old(registers).a ^ arithmetic_operand(*old(registers), old(bus)@, pc, target),
        ),
        final(bus)@ == old(bus)@,
        r == pc.wrapping_add(arithmetic_length(target)),
{
    let (value, length) = read_arithmetic_operand(registers, bus, pc, target);
    let result = registers.a ^ value;
    registers.a = result;
    registers.f = FlagsRegister { zero: result == 0, subtract: false, half_carry: false, carry: false };
    pc.wrapping_add(length)
}

} // verus!
