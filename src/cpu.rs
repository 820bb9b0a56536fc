use vstd::prelude::*;
use crate::instructions::{decode, lemma_decode_total, Instruction, JumpType, StackRegisters};
use crate::instructions_execution::arithmetic::{
    self, carry_bit, difference_registers, inc_dec_spec, long_length, long_operand,
    long_sum_registers, sum_registers,
};
use crate::instructions_execution::bit::{self, bit_spec, res_spec, set_spec};
use crate::instructions_execution::conditional::{
    self, call_spec, compare_registers, condition_holds, jump_target, relative_jump_target, ret_spec,
};
use crate::instructions_execution::load::{self, load_spec};
use crate::instructions_execution::logical::{self, logical_registers};
use crate::instructions_execution::misc::{self, daa_registers};
use crate::instructions_execution::operands::{
    arithmetic_length, arithmetic_operand, immediate_byte, immediate_word,
};
use crate::instructions_execution::rotate::{
    self, bit_0, bit_7, rl_spec, rl_value, rlc_spec, rlc_value, rr_spec, rr_value, rrc_spec,
    rrc_value,
};
use crate::instructions_execution::shift::{self, sla_spec, sra_spec, srl_spec, swap_spec};
use crate::instructions_execution::stack::{
    self, lemma_push_pop_pair_round_trip, popped_word, pushed_memory, stack_pair, with_stack_pair,
};
use crate::memory::{MemoryBus, MEMORY_SIZE};
use crate::registers::{FlagsRegister, Registers};

verus! {

/// Everything an instruction can read or change: the register file, the
/// address space, PC and SP.
pub struct CpuState {
    pub registers: Registers,
    pub memory: Seq<u8>,
    pub pc: u16,
    pub sp: u16,
}

/// Why a step could not be carried out. Either is fatal to the session.
#[derive(Clone, Copy, Debug, PartialEq, Eq, Structural)]
pub enum Fault {
    /// The opcode at `address` (after the 0xCB prefix when `prefixed`) names
    /// no instruction.
    UnknownInstruction { address: u16, opcode: u8, prefixed: bool },
    /// The instruction at `address` acts on halt or interrupt state, which
    /// this core does not hold.
    Unimplemented { address: u16, instruction: Instruction },
}

/// State with new registers and PC; memory and SP unchanged.
pub open spec fn with_registers(s: CpuState, registers: Registers, pc: u16) -> CpuState {
    CpuState { registers, pc, ..s }
}

/// State with new registers, memory and PC; SP unchanged.
pub open spec fn with_operand(s: CpuState, changed: (Registers, Seq<u8>), pc: u16) -> CpuState {
    CpuState { registers: changed.0, memory: changed.1, pc, ..s }
}

/// The state after one instruction, or the fault it raises.
pub open spec fn execute_spec(s: CpuState, instruction: Instruction) -> Result<CpuState, Fault> {
    let r = s.registers;
    let mem = s.memory;
    let pc = s.pc;
    let sp = s.sp;
    let next = pc.wrapping_add(1);
    let cb_next = pc.wrapping_add(2);
    match instruction {
        Instruction::ADD(t) => Ok(
            with_registers(
                s,
                sum_registers(r, arithmetic_operand(r, mem, pc, t), 0),
                pc.wrapping_add(arithmetic_length(t)),
            ),
        ),
        Instruction::ADDL(t) => Ok(
            with_registers(
                s,
                long_sum_registers(r, long_operand(r, mem, pc, sp, t)),
                pc.wrapping_add(long_length(t)),
            ),
        ),
        Instruction::ADC(t) => Ok(
            with_registers(
                s,
                sum_registers(r, arithmetic_operand(r, mem, pc, t), carry_bit(r.f)),
                pc.wrapping_add(arithmetic_length(t)),
            ),
        ),
        Instruction::SUB(t) => Ok(
            with_registers(
                s,
                difference_registers(r, arithmetic_operand(r, mem, pc, t), 0),
                pc.wrapping_add(arithmetic_length(t)),
            ),
        ),
        Instruction::SBC(t) => Ok(
            with_registers(
                s,
                difference_registers(r, arithmetic_operand(r, mem, pc, t), carry_bit(r.f)),
                pc.wrapping_add(arithmetic_length(t)),
            ),
        ),
        Instruction::AND(t) => Ok(
            with_registers(
                s,
                logical_registers(r, r.a & arithmetic_operand(r, mem, pc, t)),
                pc.wrapping_add(arithmetic_length(t)),
            ),
        ),
        Instruction::OR(t) => Ok(
            with_registers(
                s,
                logical_registers(r, r.a | arithmetic_operand(r, mem, pc, t)),
                pc.wrapping_add(arithmetic_length(t)),
            ),
        ),
        Instruction::XOR(t) => Ok(
            with_registers(
                s,
                logical_registers(r, r.a ^ arithmetic_operand(r, mem, pc, t)),
                pc.wrapping_add(arithmetic_length(t)),
            ),
        ),
        Instruction::CMP(t) => Ok(
            with_registers(
                s,
                compare_registers(r, arithmetic_operand(r, mem, pc, t)),
                pc.wrapping_add(arithmetic_length(t)),
            ),
        ),
        Instruction::INC(t) => {
            let (r2, mem2, sp2) = inc_dec_spec(r, mem, sp, t, true);
            Ok(CpuState { registers: r2, memory: mem2, pc: next, sp: sp2 })
        },
        Instruction::DEC(t) => {
            let (r2, mem2, sp2) = inc_dec_spec(r, mem, sp, t, false);
            Ok(CpuState { registers: r2, memory: mem2, pc: next, sp: sp2 })
        },
        Instruction::CCF => Ok(
            with_registers(s, Registers { f: FlagsRegister { carry: !r.f.carry, ..r.f }, ..r }, next),
        ),
        Instruction::SCF => Ok(
            with_registers(s, Registers { f: FlagsRegister { carry: true, ..r.f }, ..r }, next),
        ),
        Instruction::DAA => Ok(with_registers(s, daa_registers(r), next)),
        Instruction::CPL => Ok(
            with_registers(
                s,
                Registers {
                    a: !r.a,
                    f: FlagsRegister { subtract: true, half_carry: true, ..r.f },
                    ..r
                },
                next,
            ),
        ),
        Instruction::RLCA => Ok(
            with_registers(
                s,
                Registers {
                    a: rlc_value(r.a),
                    f: FlagsRegister { carry: bit_7(r.a), ..r.f },
                    ..r
                },
                next,
            ),
        ),
        Instruction::RRCA => Ok(
            with_registers(
                s,
                Registers {
                    a: rrc_value(r.a),
                    f: FlagsRegister { carry: bit_0(r.a), ..r.f },
                    ..r
                },
                next,
            ),
        ),
        Instruction::RLA => Ok(with_registers(s, Registers { a: rl_value(r.a, r.f.carry), ..r }, next)),
        Instruction::RRA => Ok(with_registers(s, Registers { a: rr_value(r.a, r.f.carry), ..r }, next)),
        Instruction::RLC(t) => Ok(with_operand(s, rlc_spec(r, mem, t), cb_next)),
        Instruction::RRC(t) => Ok(with_operand(s, rrc_spec(r, mem, t), cb_next)),
        Instruction::RL(t) => Ok(with_operand(s, rl_spec(r, mem, t), cb_next)),
        Instruction::RR(t) => Ok(with_operand(s, rr_spec(r, mem, t), cb_next)),
        Instruction::SLA(t) => Ok(with_operand(s, sla_spec(r, mem, t), cb_next)),
        Instruction::SRA(t) => Ok(with_operand(s, sra_spec(r, mem, t), cb_next)),
        Instruction::SWAP(t) => Ok(with_operand(s, swap_spec(r, mem, t), cb_next)),
        Instruction::SRL(t) => Ok(with_operand(s, srl_spec(r, mem, t), cb_next)),
        Instruction::BIT(index, t) => Ok(with_registers(s, bit_spec(r, mem, t, index), cb_next)),
        Instruction::RES(index, t) => Ok(with_operand(s, res_spec(r, mem, t, index), cb_next)),
        Instruction::SET(index, t) => Ok(with_operand(s, set_spec(r, mem, t, index), cb_next)),
        Instruction::JP(test) => Ok(CpuState { pc: jump_target(r.f, mem, pc, test), ..s }),
        Instruction::JPL => Ok(CpuState { pc: r.hl(), ..s }),
        Instruction::JR(test) => Ok(CpuState { pc: relative_jump_target(r.f, mem, pc, test), ..s }),
        Instruction::CALL(test) => {
            let (mem2, sp2, pc2) = call_spec(r.f, mem, pc, sp, test);
            Ok(CpuState { memory: mem2, sp: sp2, pc: pc2, ..s })
        },
        Instruction::RET(test) => {
            let (sp2, pc2) = ret_spec(r.f, mem, pc, sp, test);
            Ok(CpuState { sp: sp2, pc: pc2, ..s })
        },
        Instruction::RST(vector) => Ok(
            CpuState {
                memory: pushed_memory(mem, sp, next),
                sp: sp.wrapping_sub(2),
                pc: vector as u16,
                ..s
            },
        ),
        Instruction::LD(ld_type) => {
            let (r2, mem2, sp2, pc2) = load_spec(r, mem, pc, sp, ld_type);
            Ok(CpuState { registers: r2, memory: mem2, pc: pc2, sp: sp2 })
        },
        Instruction::PUSH(t) => Ok(
            CpuState {
                memory: pushed_memory(mem, sp, stack_pair(r, t)),
                sp: sp.wrapping_sub(2),
                pc: next,
                ..s
            },
        ),
        Instruction::POP(t) => Ok(
            CpuState {
                registers: with_stack_pair(r, t, popped_word(mem, sp)),
                sp: sp.wrapping_add(2),
                pc: next,
                ..s
            },
        ),
        Instruction::NOP => Ok(CpuState { pc: next, ..s }),
        Instruction::RETI | Instruction::STOP | Instruction::HALT | Instruction::DI
        | Instruction::EI => Err(Fault::Unimplemented { address: pc, instruction }),
    }
}

pub open spec fn is_arithmetic(instruction: Instruction) -> bool {
    match instruction {
        Instruction::ADD(_) | Instruction::ADDL(_) | Instruction::ADC(_) | Instruction::SUB(_)
        | Instruction::SBC(_) | Instruction::AND(_) | Instruction::OR(_) | Instruction::XOR(_)
        | Instruction::CMP(_) | Instruction::INC(_) | Instruction::DEC(_) => true,
        _ => false,
    }
}

pub open spec fn is_rotate_shift(instruction: Instruction) -> bool {
    match instruction {
        Instruction::RLCA | Instruction::RRCA | Instruction::RLA | Instruction::RRA
        | Instruction::RLC(_) | Instruction::RRC(_) | Instruction::RL(_) | Instruction::RR(_)
        | Instruction::SLA(_) | Instruction::SRA(_) | Instruction::SWAP(_) | Instruction::SRL(_) => true,
        _ => false,
    }
}

pub open spec fn is_single_bit(instruction: Instruction) -> bool {
    match instruction {
        Instruction::BIT(_, _) | Instruction::RES(_, _) | Instruction::SET(_, _) => true,
        _ => false,
    }
}

pub open spec fn is_control(instruction: Instruction) -> bool {
    match instruction {
        Instruction::JP(_) | Instruction::JPL | Instruction::JR(_) | Instruction::CALL(_)
        | Instruction::RET(_) | Instruction::RST(_) | Instruction::PUSH(_) | Instruction::POP(_) => true,
        _ => false,
    }
}

/// The opcode at PC, or the one after it when PC holds the 0xCB prefix, and
/// whether it was prefixed.
pub open spec fn fetch(s: CpuState) -> (u8, bool) {
    let first = s.memory[s.pc as int];
    if first == 0xCB {
        (s.memory[s.pc.wrapping_add(1) as int], true)
    } else {
        (first, false)
    }
}

/// One instruction cycle: fetch, decode, execute.
pub open spec fn step_spec(s: CpuState) -> Result<CpuState, Fault> {
    let (opcode, prefixed) = fetch(s);
    match decode(opcode, prefixed) {
        Some(instruction) => execute_spec(s, instruction),
        None => Err(Fault::UnknownInstruction { address: s.pc, opcode, prefixed }),
    }
}

/// A branch whose condition fails moves PC past the instruction by its fixed
/// length (3 for JP and CALL, 2 for JR, 1 for RET) and changes nothing else;
/// one whose condition holds goes to its computed target, CALL pushing the
/// return address and RET popping it.
pub proof fn lemma_branch_symmetry(s: CpuState, test: JumpType)
    ensures
        !condition_holds(s.registers.f, test) ==> {
            &&& execute_spec(s, Instruction::JP(test)) == Ok::<CpuState, Fault>(
                CpuState { pc: s.pc.wrapping_add(3), ..s },
            )
            &&& execute_spec(s, Instruction::CALL(test)) == Ok::<CpuState, Fault>(
                CpuState { pc: s.pc.wrapping_add(3), ..s },
            )
            &&& execute_spec(s, Instruction::JR(test)) == Ok::<CpuState, Fault>(
                CpuState { pc: s.pc.wrapping_add(2), ..s },
            )
            &&& execute_spec(s, Instruction::RET(test)) == Ok::<CpuState, Fault>(
                CpuState { pc: s.pc.wrapping_add(1), ..s },
            )
        },
        condition_holds(s.registers.f, test) ==> {
            &&& execute_spec(s, Instruction::JP(test)) == Ok::<CpuState, Fault>(
                CpuState { pc: immediate_word(s.memory, s.pc), ..s },
            )
            &&& execute_spec(s, Instruction::CALL(test)) == Ok::<CpuState, Fault>(
                CpuState {
                    memory: pushed_memory(s.memory, s.sp, s.pc.wrapping_add(3)),
                    sp: s.sp.wrapping_sub(2),
                    pc: immediate_word(s.memory, s.pc),
                    ..s
                },
            )
            &&& execute_spec(s, Instruction::JR(test)) == Ok::<CpuState, Fault>(
                CpuState {
                    pc: s.pc.wrapping_add(immediate_byte(s.memory, s.pc) as u16),
                    ..s
                },
            )
            &&& execute_spec(s, Instruction::RET(test)) == Ok::<CpuState, Fault>(
                CpuState {
                    sp: s.sp.wrapping_add(2),
                    pc: popped_word(s.memory, s.sp),
                    ..s
                },
            )
        },
{
}

/// Every 0xCB-prefixed instruction executes and moves PC by exactly 2,
/// whatever its operand, memory-indirect ones included.
pub proof fn lemma_prefixed_length(s: CpuState)
    requires
        s.memory.len() == MEMORY_SIZE,
        s.memory[s.pc as int] == 0xCB,
    ensures
        step_spec(s) matches Ok(t) && t.pc == s.pc.wrapping_add(2),
{
    lemma_decode_total(fetch(s).0);
}

/// PUSH of a register pair followed by POP of the same pair restores every
/// register and leaves SP where it was before the push.
pub proof fn lemma_push_then_pop(s: CpuState, pair: StackRegisters)
    requires
        s.memory.len() == MEMORY_SIZE,
    ensures
        execute_spec(s, Instruction::PUSH(pair)) matches Ok(pushed) && execute_spec(
            pushed,
            Instruction::POP(pair),
        ) matches Ok(popped) && popped.registers == s.registers && popped.sp == s.sp,
{
    lemma_push_pop_pair_round_trip(s.registers, s.memory, s.sp, pair);
}

/// The CPU: register file, program counter, stack pointer and the memory
/// bus it owns.
pub struct CPU {
    registers: Registers,
    pc: u16,
    sp: u16,
    bus: MemoryBus,
}

impl View for CPU {
    type V = CpuState;

    closed spec fn view(&self) -> CpuState {
        CpuState { registers: self.registers, memory: self.bus@, pc: self.pc, sp: self.sp }
    }
}

impl CPU {
    /// The address space holds a byte for every 16-bit address.
    pub open spec fn wf(&self) -> bool {
        self@.memory.len() == MEMORY_SIZE
    }

    pub fn new(registers: Registers, pc: u16, sp: u16, bus: MemoryBus) -> (r: CPU)
        requires
            bus.wf(),
        ensures
            r.wf(),
            r@ == (CpuState { registers, memory: bus@, pc, sp }),
    {
        CPU { registers, pc, sp, bus }
    }

    pub fn registers(&self) -> (r: Registers)
        ensures
            r == self@.registers,
    {
        self.registers
    }

    pub fn pc(&self) -> (r: u16)
        ensures
            r == self@.pc,
    {
        self.pc
    }

    pub fn sp(&self) -> (r: u16)
        ensures
            r == self@.sp,
    {
        self.sp
    }

    pub fn bus(&self) -> (r: &MemoryBus)
        ensures
            r@ == self@.memory,
    {
        &self.bus
    }

    /// Performs exactly one instruction cycle: reads the opcode at PC (the
    /// one after it when PC holds the 0xCB prefix), decodes it and executes
    /// it, then moves PC to the address the instruction returned. A fault
    /// leaves the CPU unchanged.
    pub fn step(&mut self) -> (r: Result<(), Fault>)
        requires
            old(self).wf(),
        ensures
            final(self).wf(),
            match step_spec(old(self)@) {
                Ok(s) => r is Ok && final(self)@ == s,
                Err(fault) => r == Err::<(), Fault>(fault) && final(self)@ == old(self)@,
            },
    {
        let mut opcode = self.bus.read_byte(self.pc);
        let prefixed = opcode == 0xCB;
        if prefixed {
            opcode = self.bus.read_byte(self.pc.wrapping_add(1));
        }
        match Instruction::from_byte(opcode, prefixed) {
            Some(instruction) => match self.execute(instruction) {
                Ok(next_pc) => {
                    self.pc = next_pc;
                    Ok(())
                },
                Err(fault) => Err(fault),
            },
            None => Err(Fault::UnknownInstruction { address: self.pc, opcode, prefixed }),
        }
    }

    /// Executes one decoded instruction at PC and returns the address of the
    /// next one; PC itself is left for the caller to move. A fault leaves the
    /// CPU unchanged.
    pub fn execute(&mut self, instruction: Instruction) -> (r: Result<u16, Fault>)
        requires
            old(self).wf(),
            instruction.wf(),
        ensures
            final(self).wf(),
            match execute_spec(old(self)@, instruction) {
                Ok(s) => r == Ok::<u16, Fault>(s.pc) && final(self)@ == (CpuState {
                    pc: old(self)@.pc,
                    ..s
                }),
                Err(fault) => r == Err::<u16, Fault>(fault) && final(self)@ == old(self)@,
            },
    {
        let pc = self.pc;
        match instruction {
            Instruction::ADD(_) | Instruction::ADDL(_) | Instruction::ADC(_) | Instruction::SUB(_)
            | Instruction::SBC(_) | Instruction::AND(_) | Instruction::OR(_) | Instruction::XOR(_)
            | Instruction::CMP(_) | Instruction::INC(_) | Instruction::DEC(_) => Ok(
                self.execute_arithmetic(instruction),
            ),
            Instruction::RLCA | Instruction::RRCA | Instruction::RLA | Instruction::RRA
            | Instruction::RLC(_) | Instruction::RRC(_) | Instruction::RL(_) | Instruction::RR(_)
            | Instruction::SLA(_) | Instruction::SRA(_) | Instruction::SWAP(_) | Instruction::SRL(
                _,
            ) => Ok(self.execute_rotate_shift(instruction)),
            Instruction::BIT(_, _) | Instruction::RES(_, _) | Instruction::SET(_, _) => Ok(
                self.execute_single_bit(instruction),
            ),
            Instruction::JP(_) | Instruction::JPL | Instruction::JR(_) | Instruction::CALL(_)
            | Instruction::RET(_) | Instruction::RST(_) | Instruction::PUSH(_) | Instruction::POP(
                _,
            ) => Ok(self.execute_control(instruction)),
            Instruction::LD(ld_type) => Ok(
                load::load(&mut self.registers, &mut self.bus, pc, ld_type, &mut self.sp),
            ),
            Instruction::CCF => Ok(misc::ccf(&mut self.registers, pc)),
            Instruction::SCF => Ok(misc::scf(&mut self.registers, pc)),
            Instruction::DAA => Ok(misc::daa(&mut self.registers, pc)),
            Instruction::CPL => Ok(misc::cpl(&mut self.registers, pc)),
            Instruction::NOP => Ok(misc::nop(pc)),
            Instruction::RETI | Instruction::STOP | Instruction::HALT | Instruction::DI
            | Instruction::EI => Err(Fault::Unimplemented { address: pc, instruction }),
        }
    }

    /// The 8-bit and 16-bit arithmetic and logical instructions.
    fn execute_arithmetic(&mut self, instruction: Instruction) -> (r: u16)
        requires
            old(self).wf(),
            is_arithmetic(instruction),
        ensures
            final(self).wf(),
            execute_spec(old(self)@, instruction) matches Ok(s) && r == s.pc && final(self)@
                == (CpuState { pc: old(self)@.pc, ..s }),
    {
        let pc = self.pc;
        match instruction {
            Instruction::ADD(target) => arithmetic::add(&mut self.registers, target, &mut self.bus, pc),
            Instruction::ADDL(target) => arithmetic::add_long(
                &mut self.registers,
                target,
                &mut self.bus,
                pc,
                self.sp,
            ),
            Instruction::ADC(target) => arithmetic::add_carry(
                &mut self.registers,
                target,
                &mut self.bus,
                pc,
            ),
            Instruction::SUB(target) => arithmetic::sub(&mut self.registers, target, &mut self.bus, pc),
            Instruction::SBC(target) => arithmetic::sub_carry(
                &mut self.registers,
                target,
                &mut self.bus,
                pc,
            ),
            Instruction::INC(target) => arithmetic::exec_inc_dec(
                &mut self.registers,
                target,
                &mut self.bus,
                pc,
                &mut self.sp,
                true,
            ),
            Instruction::DEC(target) => arithmetic::exec_inc_dec(
                &mut self.registers,
                target,
                &mut self.bus,
                pc,
                &mut self.sp,
                false,
            ),
            Instruction::AND(target) => logical::and(&mut self.registers, target, &mut self.bus, pc),
            Instruction::OR(target) => logical::or(&mut self.registers, target, &mut self.bus, pc),
            Instruction::XOR(target) => logical::xor(&mut self.registers, target, &mut self.bus, pc),
            Instruction::CMP(target) => conditional::cmp(&mut self.registers, target, pc, &mut self.bus),
            // excluded by the precondition
            _ => pc,
        }
    }

    /// The rotates and shifts.
    fn execute_rotate_shift(&mut self, instruction: Instruction) -> (r: u16)
        requires
            old(self).wf(),
            is_rotate_shift(instruction),
        ensures
            final(self).wf(),
            execute_spec(old(self)@, instruction) matches Ok(s) && r == s.pc && final(self)@
                == (CpuState { pc: old(self)@.pc, ..s }),
    {
        let pc = self.pc;
        match instruction {
            Instruction::RLCA => rotate::rlca(&mut self.registers, pc),
            Instruction::RRCA => rotate::rrca(&mut self.registers, pc),
            Instruction::RLA => rotate::rla(&mut self.registers, pc),
            Instruction::RRA => rotate::rra(&mut self.registers, pc),
            Instruction::RLC(target) => rotate::rlc(&mut self.registers, pc, &mut self.bus, target),
            Instruction::RRC(target) => rotate::rrc(&mut self.registers, pc, &mut self.bus, target),
            Instruction::RL(target) => rotate::rl(&mut self.registers, pc, &mut self.bus, target),
            Instruction::RR(target) => rotate::rr(&mut self.registers, pc, &mut self.bus, target),
            Instruction::SLA(target) => shift::sla(&mut self.registers, pc, target, &mut self.bus),
            Instruction::SRA(target) => shift::sra(&mut self.registers, pc, target, &mut self.bus),
            Instruction::SWAP(target) => shift::swap(&mut self.registers, pc, target, &mut self.bus),
            Instruction::SRL(target) => shift::srl(&mut self.registers, pc, target, &mut self.bus),
            // excluded by the precondition
            _ => pc,
        }
    }

    /// BIT, RES and SET.
    fn execute_single_bit(&mut self, instruction: Instruction) -> (r: u16)
        requires
            old(self).wf(),
            instruction.wf(),
            is_single_bit(instruction),
        ensures
            final(self).wf(),
            execute_spec(old(self)@, instruction) matches Ok(s) && r == s.pc && final(self)@
                == (CpuState { pc: old(self)@.pc, ..s }),
    {
        let pc = self.pc;
        match instruction {
            Instruction::BIT(index, target) => bit::bit(
                &mut self.registers,
                target,
                &mut self.bus,
                pc,
                index,
            ),
            Instruction::RES(index, target) => bit::res(
                &mut self.registers,
                target,
                &mut self.bus,
                pc,
                index,
            ),
            Instruction::SET(index, target) => bit::set(
                &mut self.registers,
                target,
                &mut self.bus,
                pc,
                index,
            ),
            // excluded by the precondition
            _ => pc,
        }
    }

    /// Jumps, calls, returns and the stack instructions.
    fn execute_control(&mut self, instruction: Instruction) -> (r: u16)
        requires
            old(self).wf(),
            is_control(instruction),
        ensures
            final(self).wf(),
            execute_spec(old(self)@, instruction) matches Ok(s) && r == s.pc && final(self)@
                == (CpuState { pc: old(self)@.pc, ..s }),
    {
        let pc = self.pc;
        match instruction {
            Instruction::JP(test) => conditional::jump(&mut self.registers, pc, &self.bus, test),
            Instruction::JPL => conditional::jpl(self.registers),
            Instruction::JR(test) => conditional::jump_relative(
                &mut self.registers,
                pc,
                &self.bus,
                test,
            ),
            Instruction::CALL(test) => conditional::call(
                &mut self.registers,
                pc,
                &mut self.bus,
                test,
                &mut self.sp,
            ),
            Instruction::RET(test) => conditional::ret(
                &mut self.registers,
                pc,
                &mut self.bus,
                test,
                &mut self.sp,
            ),
            Instruction::RST(vector) => misc::rst(pc, vector, &mut self.bus, &mut self.sp),
            Instruction::PUSH(target) => stack::push(
                &mut self.registers,
                target,
                &mut self.bus,
                pc,
                &mut self.sp,
            ),
            Instruction::POP(target) => stack::pop(
                &mut self.registers,
                target,
                &mut self.bus,
                pc,
                &mut self.sp,
            ),
            // excluded by the precondition
            _ => pc,
        }
    }
}

} // verus!
