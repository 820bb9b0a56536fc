use vstd::prelude::*;
use crate::instructions::{ArithmeticTarget, JumpType};
use crate::memory::MemoryBus;
use crate::registers::{FlagsRegister, Registers};
use super::operands::{
    arithmetic_length, arithmetic_operand, immediate_byte, immediate_word,
    read_arithmetic_operand, read_immediate_byte, read_immediate_word,
};
use super::stack::{pop_word, popped_word, push_word, pushed_memory};

verus! {

/// Whether a branch condition holds for the flags.
pub open spec fn condition_holds(f: FlagsRegister, test: JumpType) -> bool {
    match test {
        JumpType::NotZero => !f.zero,
        JumpType::Zero => f.zero,
        JumpType::NotCarry => !f.carry,
        JumpType::Carry => f.carry,
        JumpType::Always => true,
    }
}

/// CP only updates zero: it is set when A equals the operand.
pub open spec fn compare_registers(r: Registers, value: u8) -> Registers {
    Registers { f: FlagsRegister { zero: r.a == value, ..r.f }, ..r }
}

/// Next PC of JP: the immediate word when taken, else past the 3 bytes.
pub open spec fn jump_target(f: FlagsRegister, mem: Seq<u8>, pc: u16, test: JumpType) -> u16 {
    if condition_holds(f, test) {
        immediate_word(mem, pc)
    } else {
        pc.wrapping_add(3)
    }
}

/// Next PC of JR: PC plus the unsigned offset byte when taken, else past the
/// 2 bytes.
pub open spec fn relative_jump_target(
    f: FlagsRegister,
    mem: Seq<u8>,
    pc: u16,
    test: JumpType,
) -> u16 {
    if condition_holds(f, test) {
        pc.wrapping_add(immediate_byte(mem, pc) as u16)
    } else {
        pc.wrapping_add(2)
    }
}

/// Memory, SP and next PC of CALL: when taken the return address PC + 3 is
/// pushed and control goes to the immediate word; else past the 3 bytes.
pub open spec fn call_spec(f: FlagsRegister, mem: Seq<u8>, pc: u16, sp: u16, test: JumpType) -> (
    Seq<u8>,
    u16,
    u16,
) {
    if condition_holds(f, test) {
        (pushed_memory(mem, sp, pc.wrapping_add(3)), sp.wrapping_sub(2), immediate_word(mem, pc))
    } else {
        (mem, sp, pc.wrapping_add(3))
    }
}

/// SP and next PC of RET: when taken the address is popped; else past the
/// 1 byte.
pub open spec fn ret_spec(f: FlagsRegister, mem: Seq<u8>, pc: u16, sp: u16, test: JumpType) -> (
    u16,
    u16,
) {
    if condition_holds(f, test) {
        (sp.wrapping_add(2), popped_word(mem, sp))
    } else {
        (sp, pc.wrapping_add(1))
    }
}

fn test_condition(f: &FlagsRegister, test: JumpType) -> (r: bool)
    ensures
        r == condition_holds(*f, test),
{
    match test {
        JumpType::NotZero => !f.zero,
        JumpType::Zero => f.zero,
        JumpType::NotCarry => !f.carry,
        JumpType::Carry => f.carry,
        JumpType::Always => true,
    }
}

/// CP A,target: A - value for the flags only; A is not written.
pub fn cmp(registers: &mut Registers, target: ArithmeticTarget, pc: u16, bus: &mut MemoryBus) -> (r:
    u16)
    requires
        old(bus).wf(),
    ensures
        *final(registers) == compare_registers(
            *old(registers),
            arithmetic_operand(*old(registers), old(bus)@, pc, target),
        ),
        final(bus)@ == old(bus)@,
        r == pc.wrapping_add(arithmetic_length(target)),
{
    let (value, length) = read_arithmetic_operand(registers, bus, pc, target);
    registers.f.zero = registers.a.wrapping_sub(value) == 0;
    pc.wrapping_add(length)
}

/// JP test,a16.
pub fn jump(registers: &mut Registers, pc: u16, bus: &MemoryBus, test: JumpType) -> (r: u16)
    requires
        bus.wf(),
    ensures
        *final(registers) == *old(registers),
        r == jump_target(old(registers).f, bus@, pc, test),
{
    if test_condition(&registers.f, test) {
        read_immediate_word(bus, pc)
    } else {
        pc.wrapping_add(3)
    }
}

/// JP HL: control goes to the address that HL holds.
pub fn jpl(registers: Registers) -> (r: u16)
    ensures
        r == registers.hl(),
{
    registers.get_hl()
}

/// JR test,offset; the offset byte is added as an unsigned value.
pub fn jump_relative(registers: &mut Registers, pc: u16, bus: &MemoryBus, test: JumpType) -> (r:
    u16)
    requires
        bus.wf(),
    ensures
        *final(registers) == *old(registers),
        r == relative_jump_target(old(registers).f, bus@, pc, test),
{
    if test_condition(&registers.f, test) {
        let offset = read_immediate_byte(bus, pc);
        pc.wrapping_add(offset as u16)
    } else {
        pc.wrapping_add(2)
    }
}

/// CALL test,a16.
pub fn call(
    registers: &mut Registers,
    pc: u16,
    bus: &mut MemoryBus,
    test: JumpType,
    sp: &mut u16,
) -> (r: u16)
    requires
        old(bus).wf(),
    ensures
        *final(registers) == *old(registers),
        (final(bus)@, *final(sp), r) == call_spec(old(registers).f, old(bus)@, pc, *old(sp), test),
        final(bus).wf(),
{
    if test_condition(&registers.f, test) {
        let target = read_immediate_word(bus, pc);
        push_word(bus, sp, pc.wrapping_add(3));
        target
    } else {
        pc.wrapping_add(3)
    }
}

/// RET test.
pub fn ret(
    registers: &mut Registers,
    pc: u16,
    bus: &mut MemoryBus,
    test: JumpType,
    sp: &mut u16,
) -> (r: u16)
    requires
        old(bus).wf(),
    ensures
        *final(registers) == *old(registers),
        final(bus)@ == old(bus)@,
        (*final(sp), r) == ret_spec(old(registers).f, old(bus)@, pc, *old(sp), test),
{
    if test_condition(&registers.f, test) {
        pop_word(bus, sp)
    } else {
        pc.wrapping_add(1)
    }
}

} // verus!
