use vstd::prelude::*;
use crate::instructions::{ArithmeticTarget, ArithmeticTargetLong, IncDecTarget, RegisterTarget};
use crate::memory::MemoryBus;
use crate::registers::{high_byte, low_byte, FlagsRegister, Registers};
use super::operands::{
    arithmetic_length, arithmetic_operand, immediate_byte, read_arithmetic_operand,
    read_immediate_byte, read_register_operand, register_operand, with_register_operand,
    write_register_operand,
};

verus! {

/// A and the flags after A + value + carry_in (ADD and ADC).
pub open spec fn sum_registers(r: Registers, value: u8, carry_in: int) -> Registers {
    let total = r.a + value + carry_in;
    Registers {
        a: (total % 256) as u8,
        f: FlagsRegister {
            zero: total % 256 == 0,
            subtract: false,
            half_carry: r.a % 16 + value % 16 + carry_in > 15,
            carry: total > 255,
        },
        ..r
    }
}

/// A and the flags after A - value - borrow_in (SUB and SBC).
pub open spec fn difference_registers(r: Registers, value: u8, borrow_in: int) -> Registers {
    let total = r.a - value - borrow_in;
    Registers {
        a: (total % 256) as u8,
        f: FlagsRegister {
            zero: total % 256 == 0,
            subtract: true,
            half_carry: r.a % 16 < value % 16 + borrow_in,
            carry: total < 0,
        },
        ..r
    }
}

pub open spec fn carry_bit(f: FlagsRegister) -> int {
    if f.carry {
        1
    } else {
        0
    }
}

/// The 16-bit operand of ADD HL,rr.
pub open spec fn long_operand(
    r: Registers,
    mem: Seq<u8>,
    pc: u16,
    sp: u16,
    target: ArithmeticTargetLong,
) -> u16 {
    match target {
        ArithmeticTargetLong::BC => r.bc(),
        ArithmeticTargetLong::DE => r.de(),
        ArithmeticTargetLong::HL => r.hl(),
        ArithmeticTargetLong::SP => sp,
        ArithmeticTargetLong::S8 => immediate_byte(mem, pc) as u16,
    }
}

pub open spec fn long_length(target: ArithmeticTargetLong) -> u16 {
    match target {
        ArithmeticTargetLong::S8 => 2,
        _ => 1,
    }
}

/// HL and the flags after HL + value; zero is left as it was.
pub open spec fn long_sum_registers(r: Registers, value: u16) -> Registers {
    let total = r.hl() + value;
    let result = (total % 65536) as u16;
    Registers {
        h: high_byte(result),
        l: low_byte(result),
        f: FlagsRegister {
            subtract: false,
            half_carry: r.hl() % 4096 + value % 4096 > 4095,
            carry: total > 65535,
            ..r.f
        },
        ..r
    }
}

/// A byte plus or minus one, wrapping.
pub open spec fn step_byte(value: u8, is_inc: bool) -> u8 {
    if is_inc {
        ((value + 1) % 256) as u8
    } else {
        ((value - 1) % 256) as u8
    }
}

/// A word plus or minus one, wrapping.
pub open spec fn step_word(value: u16, is_inc: bool) -> u16 {
    if is_inc {
        ((value + 1) % 65536) as u16
    } else {
        ((value - 1) % 65536) as u16
    }
}

/// Flags after an 8-bit INC or DEC of `value`; carry is left as it was.
pub open spec fn inc_dec_flags(f: FlagsRegister, value: u8, is_inc: bool) -> FlagsRegister {
    FlagsRegister {
        zero: step_byte(value, is_inc) == 0,
        subtract: !is_inc,
        half_carry: if is_inc {
            value % 16 + 1 > 15
        } else {
            value % 16 < 1
        },
        ..f
    }
}

/// Flags after a 16-bit INC or DEC of `value`; zero is left as it was.
pub open spec fn inc_dec_long_flags(f: FlagsRegister, value: u16, is_inc: bool) -> FlagsRegister {
    FlagsRegister {
        subtract: !is_inc,
        half_carry: if is_inc {
            value % 4096 + 1 > 4095
        } else {
            value % 4096 < 1
        },
        carry: if is_inc {
            value == 65535
        } else {
            value == 0
        },
        ..f
    }
}

/// The 8-bit operand that an INC or DEC target names, where it names one.
pub open spec fn inc_dec_byte_target(target: IncDecTarget) -> RegisterTarget {
    match target {
        IncDecTarget::A => RegisterTarget::A,
        IncDecTarget::B => RegisterTarget::B,
        IncDecTarget::C => RegisterTarget::C,
        IncDecTarget::D => RegisterTarget::D,
        IncDecTarget::E => RegisterTarget::E,
        IncDecTarget::H => RegisterTarget::H,
        IncDecTarget::L => RegisterTarget::L,
        _ => RegisterTarget::HLI,
    }
}

/// Registers, memory and SP after INC (`is_inc`) or DEC of the target.
pub open spec fn inc_dec_spec(
    r: Registers,
    mem: Seq<u8>,
    sp: u16,
    target: IncDecTarget,
    is_inc: bool,
) -> (Registers, Seq<u8>, u16) {
    match target {
        IncDecTarget::BC => {
            let result = step_word(r.bc(), is_inc);
            let f = inc_dec_long_flags(r.f, r.bc(), is_inc);
            (Registers { b: high_byte(result), c: low_byte(result), f, ..r }, mem, sp)
        },
        IncDecTarget::DE => {
            let result = step_word(r.de(), is_inc);
            let f = inc_dec_long_flags(r.f, r.de(), is_inc);
            (Registers { d: high_byte(result), e: low_byte(result), f, ..r }, mem, sp)
        },
        IncDecTarget::HL => {
            let result = step_word(r.hl(), is_inc);
            let f = inc_dec_long_flags(r.f, r.hl(), is_inc);
            (Registers { h: high_byte(result), l: low_byte(result), f, ..r }, mem, sp)
        },
        IncDecTarget::SP => {
            (Registers { f: inc_dec_long_flags(r.f, sp, is_inc), ..r }, mem, step_word(sp, is_inc))
        },
        _ => {
            let operand = inc_dec_byte_target(target);
            let value = register_operand(r, mem, operand);
            let flagged = Registers { f: inc_dec_flags(r.f, value, is_inc), ..r };
            let (r2, mem2) = with_register_operand(
                flagged,
                mem,
                operand,
                step_byte(value, is_inc),
            );
            (r2, mem2, sp)
        },
    }
}

/// ADD A,target: A + value, wrapping, with all four flags set.
pub fn add(registers: &mut Registers, target: ArithmeticTarget, bus: &mut MemoryBus, pc: u16) -> (r:
    u16)
    requires
        old(bus).wf(),
    ensures
        *final(registers) == sum_registers(
            *old(registers),
            arithmetic_operand(*old(registers), old(bus)@, pc, target),
            0,
        ),
        final(bus)@ == old(bus)@,
        r == pc.wrapping_add(arithmetic_length(target)),
{
    let (value, length) = read_arithmetic_operand(registers, bus, pc, target);
    let a = registers.a;
    let total: u16 = a as u16 + value as u16;
    registers.a = (total % 256) as u8;
    registers.f = FlagsRegister {
        zero: total % 256 == 0,
        subtract: false,
        half_carry: a % 16 + value % 16 > 15,
        carry: total > 255,
    };
    pc.wrapping_add(length)
}

/// ADD HL,target: HL + value, wrapping; the SP-relative form also adds into
/// HL. Zero is left as it was.
pub fn add_long(
    registers: &mut Registers,
    target: ArithmeticTargetLong,
    bus: &mut MemoryBus,
    pc: u16,
    sp: u16,
) -> (r: u16)
    requires
        old(bus).wf(),
    ensures
        *final(registers) == long_sum_registers(
            *old(registers),
            long_operand(*old(registers), old(bus)@, pc, sp, target),
        ),
        final(bus)@ == old(bus)@,
        r == pc.wrapping_add(long_length(target)),
{
    let (value, length): (u16, u16) = match target {
        ArithmeticTargetLong::BC => (registers.get_bc(), 1),
        ArithmeticTargetLong::DE => (registers.get_de(), 1),
        ArithmeticTargetLong::HL => (registers.get_hl(), 1),
        ArithmeticTargetLong::SP => (sp, 1),
        ArithmeticTargetLong::S8 => (read_immediate_byte(bus, pc) as u16, 2),
    };
    let hl = registers.get_hl();
    let total: u32 = hl as u32 + value as u32;
    registers.f.subtract = false;
    registers.f.half_carry = hl % 4096 + value % 4096 > 4095;
    registers.f.carry = total > 65535;
    registers.set_hl((total % 65536) as u16);
    pc.wrapping_add(length)
}

/// ADC A,target: A + value + carry, wrapping; half-carry counts the carry in.
pub fn add_carry(
    registers: &mut Registers,
    target: ArithmeticTarget,
    bus: &mut MemoryBus,
    pc: u16,
) -> (r: u16)
    requires
        old(bus).wf(),
    ensures
        *final(registers) == sum_registers(
            *old(registers),
            arithmetic_operand(*old(registers), old(bus)@, pc, target),
            carry_bit(old(registers).f),
        ),
        final(bus)@ == old(bus)@,
        r == pc.wrapping_add(arithmetic_length(target)),
{
    let (value, length) = read_arithmetic_operand(registers, bus, pc, target);
    let a = registers.a;
    let carry: u16 = if registers.f.carry {
        1
    } else {
        0
    };
    let total: u16 = a as u16 + value as u16 + carry;
    registers.a = (total % 256) as u8;
    registers.f = FlagsRegister {
        zero: total % 256 == 0,
        subtract: false,
        half_carry: a as u16 % 16 + value as u16 % 16 + carry > 15,
        carry: total > 255,
    };
    pc.wrapping_add(length)
}

/// SUB A,target: A - value, wrapping; carry and half-carry report borrows.
pub fn sub(registers: &mut Registers, target: ArithmeticTarget, bus: &mut MemoryBus, pc: u16) -> (r:
    u16)
    requires
        old(bus).wf(),
    ensures
        *final(registers) == difference_registers(
            *old(registers),
            arithmetic_operand(*old(registers), old(bus)@, pc, target),
            0,
        ),
        final(bus)@ == old(bus)@,
        r == pc.wrapping_add(arithmetic_length(target)),
{
    let (value, length) = read_arithmetic_operand(registers, bus, pc, target);
    let a = registers.a;
    let result = a.wrapping_sub(value);
    registers.a = result;
    registers.f = FlagsRegister {
        zero: result == 0,
        subtract: true,
        half_carry: a % 16 < value % 16,
        carry: a < value,
    };
    pc.wrapping_add(length)
}

/// SBC A,target: A - value - carry, wrapping; the borrows count the carry in.
pub fn sub_carry(
    registers: &mut Registers,
    target: ArithmeticTarget,
    bus: &mut MemoryBus,
    pc: u16,
) -> (r: u16)
    requires
        old(bus).wf(),
    ensures
        *final(registers) == difference_registers(
            *old(registers),
            arithmetic_operand(*old(registers), old(bus)@, pc, target),
            carry_bit(old(registers).f),
        ),
        final(bus)@ == old(bus)@,
        r == pc.wrapping_add(arithmetic_length(target)),
{
    let (value, length) = read_arithmetic_operand(registers, bus, pc, target);
    let a = registers.a;
    let borrow: u16 = if registers.f.carry {
        1
    } else {
        0
    };
    let subtrahend: u16 = value as u16 + borrow;
    let result = (a as u16).wrapping_sub(subtrahend) as u8;
    proof {
        assert(result == ((a - value - borrow) % 256) as u8) by (bit_vector)
            requires
                result == (a as u16).wrapping_sub(subtrahend) as u8,
                subtrahend == value as u16 + borrow,
                borrow <= 1,
        ;
    }
    registers.a = result;
    registers.f = FlagsRegister {
        zero: result == 0,
        subtract: true,
        half_carry: (a as u16) % 16 < (value as u16) % 16 + borrow,
        carry: (a as u16) < subtrahend,
    };
    pc.wrapping_add(length)
}

/// INC and DEC (`is_inc` selects): 8-bit targets wrap modulo 256 and set
/// zero, subtract and half-carry; register pairs and SP wrap modulo 65536
/// and set subtract, half-carry and carry. Always one byte long.
pub fn exec_inc_dec(
    registers: &mut Registers,
    target: IncDecTarget,
    bus: &mut MemoryBus,
    pc: u16,
    sp: &mut u16,
    is_inc: bool,
) -> (r: u16)
    requires
        old(bus).wf(),
    ensures
        (*final(registers), final(bus)@, *final(sp)) == inc_dec_spec(
            *old(registers),
            old(bus)@,
            *old(sp),
            target,
            is_inc,
        ),
        final(bus).wf(),
        r == pc.wrapping_add(1),
{
    match target {
        IncDecTarget::BC => {
            let value = registers.get_bc();
            let result = inc_dec_long(value, is_inc, registers);
            registers.set_bc(result);
        },
        IncDecTarget::DE => {
            let value = registers.get_de();
            let result = inc_dec_long(value, is_inc, registers);
            registers.set_de(result);
        },
        IncDecTarget::HL => {
            let value = registers.get_hl();
            let result = inc_dec_long(value, is_inc, registers);
            registers.set_hl(result);
        },
        IncDecTarget::SP => {
            let value = *sp;
            *sp = inc_dec_long(value, is_inc, registers);
        },
        _ => {
            let operand = match target {
                IncDecTarget::A => RegisterTarget::A,
                IncDecTarget::B => RegisterTarget::B,
                IncDecTarget::C => RegisterTarget::C,
                IncDecTarget::D => RegisterTarget::D,
                IncDecTarget::E => RegisterTarget::E,
                IncDecTarget::H => RegisterTarget::H,
                IncDecTarget::L => RegisterTarget::L,
                _ => RegisterTarget::HLI,
            };
            let value = read_register_operand(registers, bus, operand);
            let result = inc_dec(value, is_inc, registers);
            write_register_operand(registers, bus, operand, result);
        },
    }
    pc.wrapping_add(1)
}

fn inc_dec(value: u8, is_inc: bool, registers: &mut Registers) -> (r: u8)
    ensures
        r == step_byte(value, is_inc),
        *final(registers) == (Registers {
            f: inc_dec_flags(old(registers).f, value, is_inc),
            ..*old(registers)
        }),
{
    let result = if is_inc {
        value.wrapping_add(1)
    } else {
        value.wrapping_sub(1)
    };
    registers.f.zero = result == 0;
    registers.f.subtract = !is_inc;
    registers.f.half_carry = if is_inc {
        value % 16 + 1 > 15
    } else {
        value % 16 < 1
    };
    result
}

fn inc_dec_long(value: u16, is_inc: bool, registers: &mut Registers) -> (r: u16)
    ensures
        r == step_word(value, is_inc),
        *final(registers) == (Registers {
            f: inc_dec_long_flags(old(registers).f, value, is_inc),
            ..*old(registers)
        }),
{
    let result = if is_inc {
        value.wrapping_add(1)
    } else {
        value.wrapping_sub(1)
    };
    registers.f.subtract = !is_inc;
    registers.f.carry = if is_inc {
        value == 65535
    } else {
        value == 0
    };
    registers.f.half_carry = if is_inc {
        value % 4096 + 1 > 4095
    } else {
        value % 4096 < 1
    };
    result
}

} // verus!
