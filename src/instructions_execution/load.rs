use vstd::prelude::*;
use crate::instructions::{
    ByteAddress, Indirect, LoadByteSource, LoadByteTarget, LoadType, LoadWordSource,
    LoadWordTarget, RegisterTarget,
};
use crate::memory::MemoryBus;
use crate::registers::{high_byte, low_byte, Registers};
use super::operands::{
    immediate_byte, immediate_word, read_immediate_byte, read_immediate_word,
    with_register_operand, write_register_operand,
};

verus! {

/// The register or memory operand that an 8-bit load reads or writes.
pub open spec fn byte_operand_of_target(target: LoadByteTarget) -> RegisterTarget {
    match target {
        LoadByteTarget::A => RegisterTarget::A,
        LoadByteTarget::B => RegisterTarget::B,
        LoadByteTarget::C => RegisterTarget::C,
        LoadByteTarget::D => RegisterTarget::D,
        LoadByteTarget::E => RegisterTarget::E,
        LoadByteTarget::H => RegisterTarget::H,
        LoadByteTarget::L => RegisterTarget::L,
        LoadByteTarget::HLI => RegisterTarget::HLI,
    }
}

pub open spec fn byte_source_value(r: Registers, mem: Seq<u8>, pc: u16, source: LoadByteSource) -> u8 {
    match source {
        LoadByteSource::A => r.a,
        LoadByteSource::B => r.b,
        LoadByteSource::C => r.c,
        LoadByteSource::D => r.d,
        LoadByteSource::E => r.e,
        LoadByteSource::H => r.h,
        LoadByteSource::L => r.l,
        LoadByteSource::HLI => mem[r.hl() as int],
        LoadByteSource::D8 => immediate_byte(mem, pc),
    }
}

pub open spec fn byte_source_length(source: LoadByteSource) -> u16 {
    match source {
        LoadByteSource::D8 => 2,
        _ => 1,
    }
}

pub open spec fn word_source_value(
    r: Registers,
    mem: Seq<u8>,
    pc: u16,
    sp: u16,
    source: LoadWordSource,
) -> u16 {
    match source {
        LoadWordSource::BC => r.bc(),
        LoadWordSource::DE => r.de(),
        LoadWordSource::HL => r.hl(),
        LoadWordSource::SP => sp,
        LoadWordSource::D16 => immediate_word(mem, pc),
    }
}

pub open spec fn word_source_length(source: LoadWordSource) -> u16 {
    match source {
        LoadWordSource::D16 => 3,
        _ => 1,
    }
}

/// Registers and SP once the word target holds `value`.
pub open spec fn with_word_target(r: Registers, sp: u16, target: LoadWordTarget, value: u16) -> (
    Registers,
    u16,
) {
    match target {
        LoadWordTarget::BC => (r.with_bc(value), sp),
        LoadWordTarget::DE => (r.with_de(value), sp),
        LoadWordTarget::HL => (r.with_hl(value), sp),
        LoadWordTarget::SP => (r, value),
    }
}

/// The address that an indirect operand names.
pub open spec fn indirect_address(r: Registers, indirect: Indirect) -> u16 {
    match indirect {
        Indirect::BCI => r.bc(),
        Indirect::DEI => r.de(),
        _ => r.hl(),
    }
}

/// The registers after the access: HL steps up or down for the HL forms.
pub open spec fn after_indirect(r: Registers, indirect: Indirect) -> Registers {
    match indirect {
        Indirect::HLINC => r.with_hl(r.hl().wrapping_add(1)),
        Indirect::HLDEC => r.with_hl(r.hl().wrapping_sub(1)),
        _ => r,
    }
}

/// The address of a high-page or absolute operand.
pub open spec fn byte_address(r: Registers, mem: Seq<u8>, pc: u16, address: ByteAddress) -> u16 {
    match address {
        ByteAddress::A8 => 0xFF00u16 | (immediate_byte(mem, pc) as u16),
        ByteAddress::C => 0xFF00u16 | (r.c as u16),
        ByteAddress::A16 => immediate_word(mem, pc),
    }
}

pub open spec fn byte_address_length(address: ByteAddress) -> u16 {
    match address {
        ByteAddress::A8 => 2,
        ByteAddress::C => 1,
        ByteAddress::A16 => 3,
    }
}

/// Registers, memory, SP and next PC after a load.
pub open spec fn load_spec(r: Registers, mem: Seq<u8>, pc: u16, sp: u16, ld_type: LoadType) -> (
    Registers,
    Seq<u8>,
    u16,
    u16,
) {
    match ld_type {
        LoadType::Byte(target, source) => {
            let value = byte_source_value(r, mem, pc, source);
            let (r2, mem2) = with_register_operand(r, mem, byte_operand_of_target(target), value);
            (r2, mem2, sp, pc.wrapping_add(byte_source_length(source)))
        },
        LoadType::Word(target, source) => {
            let value = word_source_value(r, mem, pc, sp, source);
            let (r2, sp2) = with_word_target(r, sp, target, value);
            (r2, mem, sp2, pc.wrapping_add(word_source_length(source)))
        },
        LoadType::AFromIndirect(indirect) => {
            let value = mem[indirect_address(r, indirect) as int];
            (Registers { a: value, ..after_indirect(r, indirect) }, mem, sp, pc.wrapping_add(1))
        },
        LoadType::IndirectFromA(indirect) => (
            after_indirect(r, indirect),
            mem.update(indirect_address(r, indirect) as int, r.a),
            sp,
            pc.wrapping_add(1),
        ),
        LoadType::AFromByteAddress(address) => (
            Registers { a: mem[byte_address(r, mem, pc, address) as int], ..r },
            mem,
            sp,
            pc.wrapping_add(byte_address_length(address)),
        ),
        LoadType::ByteAddressFromA(address) => (
            r,
            mem.update(byte_address(r, mem, pc, address) as int, r.a),
            sp,
            pc.wrapping_add(byte_address_length(address)),
        ),
        LoadType::SPToAddress => {
            let address = immediate_word(mem, pc);
            (
                r,
                mem.update(address as int, low_byte(sp)).update(
                    address.wrapping_add(1) as int,
                    high_byte(sp),
                ),
                sp,
                pc.wrapping_add(3),
            )
        },
    }
}

fn step_indirect(registers: &mut Registers, indirect: Indirect)
    ensures
        *final(registers) == after_indirect(*old(registers), indirect),
{
    match indirect {
        Indirect::HLINC => {
            let hl = registers.get_hl();
            registers.set_hl(hl.wrapping_add(1));
        },
        Indirect::HLDEC => {
            let hl = registers.get_hl();
            registers.set_hl(hl.wrapping_sub(1));
        },
        _ => {},
    }
}

fn address_of_indirect(registers: &Registers, indirect: Indirect) -> (r: u16)
    ensures
        r == indirect_address(*registers, indirect),
{
    match indirect {
        Indirect::BCI => registers.get_bc(),
        Indirect::DEI => registers.get_de(),
        _ => registers.get_hl(),
    }
}

fn address_of_byte_address(registers: &Registers, bus: &MemoryBus, pc: u16, address: ByteAddress) -> (r: (u16, u16))
    requires
        bus.wf(),
    ensures
        r == (byte_address(*registers, bus@, pc, address), byte_address_length(address)),
{
    match address {
        ByteAddress::A8 => (0xFF00u16 | (read_immediate_byte(bus, pc) as u16), 2),
        ByteAddress::C => (0xFF00u16 | (registers.c as u16), 1),
        ByteAddress::A16 => (read_immediate_word(bus, pc), 3),
    }
}

/// LD in all its addressing forms; returns the address past the instruction.
pub fn load(
    registers: &mut Registers,
    bus: &mut MemoryBus,
    pc: u16,
    ld_type: LoadType,
    sp: &mut u16,
) -> (r: u16)
    requires
        old(bus).wf(),
    ensures
        (*final(registers), final(bus)@, *final(sp), r) == load_spec(
            *old(registers),
            old(bus)@,
            pc,
            *old(sp),
            ld_type,
        ),
        final(bus).wf(),
{
    match ld_type {
        LoadType::Byte(target, source) => {
            let (value, length): (u8, u16) = match source {
                LoadByteSource::A => (registers.a, 1),
                LoadByteSource::B => (registers.b, 1),
                LoadByteSource::C => (registers.c, 1),
                LoadByteSource::D => (registers.d, 1),
                LoadByteSource::E => (registers.e, 1),
                LoadByteSource::H => (registers.h, 1),
                LoadByteSource::L => (registers.l, 1),
                LoadByteSource::HLI => (bus.read_byte(registers.get_hl()), 1),
                LoadByteSource::D8 => (read_immediate_byte(bus, pc), 2),
            };
            let operand = match target {
                LoadByteTarget::A => RegisterTarget::A,
                LoadByteTarget::B => RegisterTarget::B,
                LoadByteTarget::C => RegisterTarget::C,
                LoadByteTarget::D => RegisterTarget::D,
                LoadByteTarget::E => RegisterTarget::E,
                LoadByteTarget::H => RegisterTarget::H,
                LoadByteTarget::L => RegisterTarget::L,
                LoadByteTarget::HLI => RegisterTarget::HLI,
            };
            write_register_operand(registers, bus, operand, value);
            pc.wrapping_add(length)
        },
        LoadType::Word(target, source) => {
            let (value, length): (u16, u16) = match source {
                LoadWordSource::BC => (registers.get_bc(), 1),
                LoadWordSource::DE => (registers.get_de(), 1),
                LoadWordSource::HL => (registers.get_hl(), 1),
                LoadWordSource::SP => (*sp, 1),
                LoadWordSource::D16 => (read_immediate_word(bus, pc), 3),
            };
            match target {
                LoadWordTarget::BC => registers.set_bc(value),
                LoadWordTarget::DE => registers.set_de(value),
                LoadWordTarget::HL => registers.set_hl(value),
                LoadWordTarget::SP => *sp = value,
            }
            pc.wrapping_add(length)
        },
        LoadType::AFromIndirect(indirect) => {
            let address = address_of_indirect(registers, indirect);
            let value = bus.read_byte(address);
            step_indirect(registers, indirect);
            registers.a = value;
            pc.wrapping_add(1)
        },
        LoadType::IndirectFromA(indirect) => {
            let address = address_of_indirect(registers, indirect);
            bus.set_byte(address, registers.a);
            step_indirect(registers, indirect);
            pc.wrapping_add(1)
        },
        LoadType::AFromByteAddress(address) => {
            let (target, length) = address_of_byte_address(registers, bus, pc, address);
            registers.a = bus.read_byte(target);
            pc.wrapping_add(length)
        },
        LoadType::ByteAddressFromA(address) => {
            let (target, length) = address_of_byte_address(registers, bus, pc, address);
            bus.set_byte(target, registers.a);
            pc.wrapping_add(length)
        },
        LoadType::SPToAddress => {
            let address = read_immediate_word(bus, pc);
            bus.set_byte(address, (*sp % 256) as u8);
            bus.set_byte(address.wrapping_add(1), (*sp / 256) as u8);
            pc.wrapping_add(3)
        },
    }
}

} // verus!
