use vstd::prelude::*;
use crate::memory::MemoryBus;
use crate::registers::{FlagsRegister, Registers};
use super::stack::{push_word, pushed_memory};

verus! {

/// The value DAA adds to A (or subtracts after a subtraction): 0x60 for the
/// high digit, 0x06 for the low one.
pub open spec fn daa_correction(a: u8, f: FlagsRegister) -> int {
    (if f.carry || (!f.subtract && a > 0x99) {
        0x60int
    } else {
        0
    }) + (if f.half_carry || (!f.subtract && a % 16 > 9) {
        0x06int
    } else {
        0
    })
}

/// A and the flags after DAA: A becomes the packed BCD form of the last
/// addition or subtraction; carry records a decimal carry out; half-carry is
/// cleared and subtract is kept.
pub open spec fn daa_registers(r: Registers) -> Registers {
    let correction = daa_correction(r.a, r.f);
    let a = ((if r.f.subtract {
        r.a - correction
    } else {
        r.a + correction
    }) % 256) as u8;
    Registers {
        a,
        f: FlagsRegister {
            zero: a == 0,
            half_carry: false,
            carry: r.f.carry || (!r.f.subtract && r.a > 0x99),
            ..r.f
        },
        ..r
    }
}

/// CCF: the carry flag is inverted.
pub fn ccf(registers: &mut Registers, pc: u16) -> (r: u16)
    ensures
        *final(registers) == (Registers {
            f: FlagsRegister { carry: !old(registers).f.carry, ..old(registers).f },
            ..*old(registers)
        }),
        r == pc.wrapping_add(1),
{
    registers.f.carry = !registers.f.carry;
    pc.wrapping_add(1)
}

/// SCF: the carry flag is set.
pub fn scf(registers: &mut Registers, pc: u16) -> (r: u16)
    ensures
        *final(registers) == (Registers {
            f: FlagsRegister { carry: true, ..old(registers).f },
            ..*old(registers)
        }),
        r == pc.wrapping_add(1),
{
    registers.f.carry = true;
    pc.wrapping_add(1)
}

/// DAA: decimal adjustment of A.
pub fn daa(registers: &mut Registers, pc: u16) -> (r: u16)
    ensures
        *final(registers) == daa_registers(*old(registers)),
        r == pc.wrapping_add(1),
{
    let a = registers.a;
    let subtract = registers.f.subtract;
    let mut correction: u8 = 0;
    let mut carry = registers.f.carry;
    if registers.f.carry || (!subtract && a > 0x99) {
        correction = 0x60;
        carry = true;
    }
    if registers.f.half_carry || (!subtract && a % 16 > 9) {
        correction = correction + 0x06;
    }
    let result = if subtract {
        a.wrapping_sub(correction)
    } else {
        a.wrapping_add(correction)
    };
    registers.a = result;
    registers.f.zero = result == 0;
    registers.f.half_carry = false;
    registers.f.carry = carry;
    pc.wrapping_add(1)
}

/// CPL: A is complemented; subtract and half-carry are set.
pub fn cpl(registers: &mut Registers, pc: u16) -> (r: u16)
    ensures
        *final(registers) == (Registers {
            a: !old(registers).a,
            f: FlagsRegister { subtract: true, half_carry: true, ..old(registers).f },
            ..*old(registers)
        }),
        r == pc.wrapping_add(1),
{
    registers.a = !registers.a;
    registers.f.subtract = true;
    registers.f.half_carry = true;
    pc.wrapping_add(1)
}

/// Address after the one-byte RETI; the registers are left alone. Returning
/// from an interrupt also re-enables interrupts, state that this core does
/// not hold, so `CPU::execute` reports RETI as a fault rather than run it.
pub fn reti(registers: &mut Registers, pc: u16) -> (r: u16)
    ensures
        *final(registers) == *old(registers),
        r == pc.wrapping_add(1),
{
    pc.wrapping_add(1)
}

/// RST vector: the return address PC + 1 is pushed and control goes to the
/// vector address.
pub fn rst(pc: u16, value: u8, bus: &mut MemoryBus, sp: &mut u16) -> (r: u16)
    requires
        old(bus).wf(),
    ensures
        final(bus)@ == pushed_memory(old(bus)@, *old(sp), pc.wrapping_add(1)),
        final(bus).wf(),
        *final(sp) == old(sp).wrapping_sub(2),
        r == value as u16,
{
    push_word(bus, sp, pc.wrapping_add(1));
    value as u16
}

/// NOP: nothing but the advance past its one byte.
pub fn nop(pc: u16) -> (r: u16)
    ensures
        r == pc.wrapping_add(1),
{
    pc.wrapping_add(1)
}

/// Address after the one-byte STOP; the low-power state is the host's, and
/// `CPU::execute` reports STOP as a fault.
pub fn stop(registers: &mut Registers, pc: u16) -> (r: u16)
    ensures
        *final(registers) == *old(registers),
        r == pc.wrapping_add(1),
{
    pc.wrapping_add(1)
}

/// Address after the one-byte HALT; the halted state is the host's, and
/// `CPU::execute` reports HALT as a fault.
pub fn halt(registers: &mut Registers, pc: u16) -> (r: u16)
    ensures
        *final(registers) == *old(registers),
        r == pc.wrapping_add(1),
{
    pc.wrapping_add(1)
}

/// Address after the one-byte DI; the interrupt enable is the host's, and
/// `CPU::execute` reports DI as a fault.
pub fn di(registers: &mut Registers, pc: u16) -> (r: u16)
    ensures
        *final(registers) == *old(registers),
        r == pc.wrapping_add(1),
{
    pc.wrapping_add(1)
}

/// Address after the one-byte EI; the interrupt enable is the host's, and
/// `CPU::execute` reports EI as a fault.
pub fn ei(registers: &mut Registers, pc: u16) -> (r: u16)
    ensures
        *final(registers) == *old(registers),
        r == pc.wrapping_add(1),
{
    pc.wrapping_add(1)
}

} // verus!
