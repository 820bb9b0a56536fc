use vstd::prelude::*;
use crate::instructions::StackRegisters;
use crate::memory::MemoryBus;
use crate::registers::{
    high_byte, lemma_flags_byte_round_trip, lemma_word_join, lemma_word_split, low_byte, word,
    Registers,
};

verus! {

/// Memory after pushing `value` with the stack pointer at `sp`: the high
/// byte goes to sp - 1, the low byte to sp - 2.
pub open spec fn pushed_memory(mem: Seq<u8>, sp: u16, value: u16) -> Seq<u8> {
    mem.update(sp.wrapping_sub(1) as int, high_byte(value)).update(
        sp.wrapping_sub(2) as int,
        low_byte(value),
    )
}

/// The word that a pop reads with the stack pointer at `sp`: the low byte
/// at sp, the high byte at sp + 1.
pub open spec fn popped_word(mem: Seq<u8>, sp: u16) -> u16 {
    word(mem[sp.wrapping_add(1) as int], mem[sp as int])
}

/// The value of a register pair that PUSH and POP move.
pub open spec fn stack_pair(r: Registers, target: StackRegisters) -> u16 {
    match target {
        StackRegisters::AF => r.af(),
        StackRegisters::BC => r.bc(),
        StackRegisters::DE => r.de(),
        StackRegisters::HL => r.hl(),
    }
}

pub open spec fn with_stack_pair(r: Registers, target: StackRegisters, value: u16) -> Registers {
    match target {
        StackRegisters::AF => r.with_af(value),
        StackRegisters::BC => r.with_bc(value),
        StackRegisters::DE => r.with_de(value),
        StackRegisters::HL => r.with_hl(value),
    }
}

/// Pushes a word: SP goes down by one and takes the high byte, then down by
/// one more and takes the low byte.
pub fn push_word(bus: &mut MemoryBus, sp: &mut u16, value: u16)
    requires
        old(bus).wf(),
    ensures
        final(bus)@ == pushed_memory(old(bus)@, *old(sp), value),
        final(bus).wf(),
        *final(sp) == old(sp).wrapping_sub(2),
{
    *sp = (*sp).wrapping_sub(1);
    bus.set_byte(*sp, (value / 256) as u8);
    *sp = (*sp).wrapping_sub(1);
    bus.set_byte(*sp, (value % 256) as u8);
}

/// Pops a word: the low byte at SP, then the high byte at SP + 1; SP goes up
/// by two.
pub fn pop_word(bus: &MemoryBus, sp: &mut u16) -> (r: u16)
    requires
        bus.wf(),
    ensures
        r == popped_word(bus@, *old(sp)),
        *final(sp) == old(sp).wrapping_add(2),
{
    let low = bus.read_byte(*sp);
    *sp = (*sp).wrapping_add(1);
    let high = bus.read_byte(*sp);
    *sp = (*sp).wrapping_add(1);
    high as u16 * 256 + low as u16
}

/// Popping right after a push gives back the pushed word, and the stack
/// pointer returns to where it was before the push.
pub proof fn lemma_push_pop_round_trip(mem: Seq<u8>, sp: u16, value: u16)
    requires
        mem.len() == 0x10000,
    ensures
        popped_word(pushed_memory(mem, sp, value), sp.wrapping_sub(2)) == value,
        sp.wrapping_sub(2).wrapping_add(2) == sp,
{
    lemma_word_split(value);
}

/// PUSH of a register pair followed by POP of the same pair leaves every
/// register as it was and SP where it started.
pub proof fn lemma_push_pop_pair_round_trip(
    r: Registers,
    mem: Seq<u8>,
    sp: u16,
    target: StackRegisters,
)
    requires
        mem.len() == 0x10000,
    ensures
        with_stack_pair(
            r,
            target,
            popped_word(pushed_memory(mem, sp, stack_pair(r, target)), sp.wrapping_sub(2)),
        ) == r,
        sp.wrapping_sub(2).wrapping_add(2) == sp,
{
    lemma_push_pop_round_trip(mem, sp, stack_pair(r, target));
    lemma_word_join(r.a, crate::registers::flags_byte(r.f));
    lemma_word_join(r.b, r.c);
    lemma_word_join(r.d, r.e);
    lemma_word_join(r.h, r.l);
    lemma_flags_byte_round_trip(r.f);
}

/// PUSH pair: the pair goes onto the stack. One byte long.
pub fn push(
    registers: &mut Registers,
    target: StackRegisters,
    bus: &mut MemoryBus,
    pc: u16,
    sp: &mut u16,
) -> (r: u16)
    requires
        old(bus).wf(),
    ensures
        *final(registers) == *old(registers),
        final(bus)@ == pushed_memory(old(bus)@, *old(sp), stack_pair(*old(registers), target)),
        final(bus).wf(),
        *final(sp) == old(sp).wrapping_sub(2),
        r == pc.wrapping_add(1),
{
    let value = match target {
        StackRegisters::AF => registers.get_af(),
        StackRegisters::BC => registers.get_bc(),
        StackRegisters::DE => registers.get_de(),
        StackRegisters::HL => registers.get_hl(),
    };
    push_word(bus, sp, value);
    pc.wrapping_add(1)
}

/// POP pair: the pair takes the word off the stack; for AF the low nibble of
/// the flags byte is dropped. One byte long.
pub fn pop(
    registers: &mut Registers,
    target: StackRegisters,
    bus: &mut MemoryBus,
    pc: u16,
    sp: &mut u16,
) -> (r: u16)
    requires
        old(bus).wf(),
    ensures
        *final(registers) == with_stack_pair(
            *old(registers),
            target,
            popped_word(old(bus)@, *old(sp)),
        ),
        final(bus)@ == old(bus)@,
        *final(sp) == old(sp).wrapping_add(2),
        r == pc.wrapping_add(1),
{
    let value = pop_word(bus, sp);
    match target {
        StackRegisters::AF => registers.set_af(value),
        StackRegisters::BC => registers.set_bc(value),
        StackRegisters::DE => registers.set_de(value),
        StackRegisters::HL => registers.set_hl(value),
    }
    pc.wrapping_add(1)
}

} // verus!
