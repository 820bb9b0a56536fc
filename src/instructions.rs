use vstd::prelude::*;

verus! {

/// Operand of the 8-bit arithmetic and logical instructions.
#[derive(Clone, Copy, Debug, PartialEq, Eq, Structural)]
pub enum ArithmeticTarget {
    A,
    B,
    C,
    D,
    E,
    H,
    L,
    /// The byte at the address that HL holds.
    HLI,
    /// The byte that follows the opcode.
    D8,
}

/// Operand of the 16-bit addition into HL.
#[derive(Clone, Copy, Debug, PartialEq, Eq, Structural)]
pub enum ArithmeticTargetLong {
    BC,
    DE,
    HL,
    SP,
    /// The byte that follows the opcode.
    S8,
}

/// Operand of INC and DEC, over 8-bit and 16-bit targets.
#[derive(Clone, Copy, Debug, PartialEq, Eq, Structural)]
pub enum IncDecTarget {
    A,
    B,
    C,
    D,
    E,
    H,
    L,
    HLI,
    BC,
    DE,
    HL,
    SP,
}

/// Operand of the CB-prefixed instructions.
#[derive(Clone, Copy, Debug, PartialEq, Eq, Structural)]
pub enum RegisterTarget {
    A,
    B,
    C,
    D,
    E,
    H,
    L,
    HLI,
}

/// Register pair moved by PUSH and POP.
#[derive(Clone, Copy, Debug, PartialEq, Eq, Structural)]
pub enum StackRegisters {
    AF,
    BC,
    DE,
    HL,
}

/// Branch condition.
#[derive(Clone, Copy, Debug, PartialEq, Eq, Structural)]
pub enum JumpType {
    NotZero,
    Zero,
    NotCarry,
    Carry,
    Always,
}

#[derive(Clone, Copy, Debug, PartialEq, Eq, Structural)]
pub enum LoadByteTarget {
    A,
    B,
    C,
    D,
    E,
    H,
    L,
    HLI,
}

#[derive(Clone, Copy, Debug, PartialEq, Eq, Structural)]
pub enum LoadByteSource {
    A,
    B,
    C,
    D,
    E,
    H,
    L,
    HLI,
    D8,
}

#[derive(Clone, Copy, Debug, PartialEq, Eq, Structural)]
pub enum LoadWordTarget {
    BC,
    DE,
    HL,
    SP,
}

#[derive(Clone, Copy, Debug, PartialEq, Eq, Structural)]
pub enum LoadWordSource {
    BC,
    DE,
    HL,
    SP,
    /// The little-endian word that follows the opcode.
    D16,
}

/// Address held in a register pair; the HL forms step HL after the access.
#[derive(Clone, Copy, Debug, PartialEq, Eq, Structural)]
pub enum Indirect {
    BCI,
    DEI,
    HLINC,
    HLDEC,
}

#[derive(Clone, Copy, Debug, PartialEq, Eq, Structural)]
pub enum ByteAddress {
    /// 0xFF00 | the byte that follows the opcode.
    A8,
    /// 0xFF00 | register C.
    C,
    /// The little-endian word that follows the opcode.
    A16,
}

#[derive(Clone, Copy, Debug, PartialEq, Eq, Structural)]
pub enum LoadType {
    Byte(LoadByteTarget, LoadByteSource),
    Word(LoadWordTarget, LoadWordSource),
    AFromIndirect(Indirect),
    IndirectFromA(Indirect),
    AFromByteAddress(ByteAddress),
    ByteAddressFromA(ByteAddress),
    SPToAddress,
}

/// A decoded instruction: one variant per opcode family.
#[derive(Clone, Copy, Debug, PartialEq, Eq, Structural)]
pub enum Instruction {
    ADD(ArithmeticTarget),
    ADDL(ArithmeticTargetLong),
    ADC(ArithmeticTarget),
    SUB(ArithmeticTarget),
    SBC(ArithmeticTarget),
    AND(ArithmeticTarget),
    OR(ArithmeticTarget),
    XOR(ArithmeticTarget),
    CMP(ArithmeticTarget),
    INC(IncDecTarget),
    DEC(IncDecTarget),
    CCF,
    SCF,
    DAA,
    CPL,
    RLCA,
    RRCA,
    RLA,
    RRA,
    RLC(RegisterTarget),
    RRC(RegisterTarget),
    RL(RegisterTarget),
    RR(RegisterTarget),
    SLA(RegisterTarget),
    SRA(RegisterTarget),
    SWAP(RegisterTarget),
    SRL(RegisterTarget),
    BIT(u8, RegisterTarget),
    RES(u8, RegisterTarget),
    SET(u8, RegisterTarget),
    JP(JumpType),
    JPL,
    JR(JumpType),
    CALL(JumpType),
    RET(JumpType),
    RETI,
    RST(u8),
    LD(LoadType),
    PUSH(StackRegisters),
    POP(StackRegisters),
    NOP,
    STOP,
    HALT,
    DI,
    EI,
}

impl Instruction {
    /// The bit index of BIT, RES and SET names one of the eight bits.
    pub open spec fn wf(self) -> bool {
        match self {
            Instruction::BIT(bit, _) => bit < 8,
            Instruction::RES(bit, _) => bit < 8,
            Instruction::SET(bit, _) => bit < 8,
            _ => true,
        }
    }
}

/// The operand that a 3-bit register code selects.
pub open spec fn register_target_of(code: u8) -> RegisterTarget {
    if code == 0 {
        RegisterTarget::B
    } else if code == 1 {
        RegisterTarget::C
    } else if code == 2 {
        RegisterTarget::D
    } else if code == 3 {
        RegisterTarget::E
    } else if code == 4 {
        RegisterTarget::H
    } else if code == 5 {
        RegisterTarget::L
    } else if code == 6 {
        RegisterTarget::HLI
    } else {
        RegisterTarget::A
    }
}

pub open spec fn arithmetic_target_of(code: u8) -> ArithmeticTarget {
    match register_target_of(code) {
        RegisterTarget::A => ArithmeticTarget::A,
        RegisterTarget::B => ArithmeticTarget::B,
        RegisterTarget::C => ArithmeticTarget::C,
        RegisterTarget::D => ArithmeticTarget::D,
        RegisterTarget::E => ArithmeticTarget::E,
        RegisterTarget::H => ArithmeticTarget::H,
        RegisterTarget::L => ArithmeticTarget::L,
        RegisterTarget::HLI => ArithmeticTarget::HLI,
    }
}

pub open spec fn inc_dec_target_of(code: u8) -> IncDecTarget {
    match register_target_of(code) {
        RegisterTarget::A => IncDecTarget::A,
        RegisterTarget::B => IncDecTarget::B,
        RegisterTarget::C => IncDecTarget::C,
        RegisterTarget::D => IncDecTarget::D,
        RegisterTarget::E => IncDecTarget::E,
        RegisterTarget::H => IncDecTarget::H,
        RegisterTarget::L => IncDecTarget::L,
        RegisterTarget::HLI => IncDecTarget::HLI,
    }
}

pub open spec fn load_byte_target_of(code: u8) -> LoadByteTarget {
    match register_target_of(code) {
        RegisterTarget::A => LoadByteTarget::A,
        RegisterTarget::B => LoadByteTarget::B,
        RegisterTarget::C => LoadByteTarget::C,
        RegisterTarget::D => LoadByteTarget::D,
        RegisterTarget::E => LoadByteTarget::E,
        RegisterTarget::H => LoadByteTarget::H,
        RegisterTarget::L => LoadByteTarget::L,
        RegisterTarget::HLI => LoadByteTarget::HLI,
    }
}

pub open spec fn load_byte_source_of(code: u8) -> LoadByteSource {
    match register_target_of(code) {
        RegisterTarget::A => LoadByteSource::A,
        RegisterTarget::B => LoadByteSource::B,
        RegisterTarget::C => LoadByteSource::C,
        RegisterTarget::D => LoadByteSource::D,
        RegisterTarget::E => LoadByteSource::E,
        RegisterTarget::H => LoadByteSource::H,
        RegisterTarget::L => LoadByteSource::L,
        RegisterTarget::HLI => LoadByteSource::HLI,
    }
}

/// The condition that a 2-bit condition code selects.
pub open spec fn condition_of(code: u8) -> JumpType {
    if code == 0 {
        JumpType::NotZero
    } else if code == 1 {
        JumpType::Zero
    } else if code == 2 {
        JumpType::NotCarry
    } else {
        JumpType::Carry
    }
}

/// The 8-bit arithmetic or logical family that a 3-bit code selects.
pub open spec fn alu_instruction_of(code: u8, target: ArithmeticTarget) -> Instruction {
    if code == 0 {
        Instruction::ADD(target)
    } else if code == 1 {
        Instruction::ADC(target)
    } else if code == 2 {
        Instruction::SUB(target)
    } else if code == 3 {
        Instruction::SBC(target)
    } else if code == 4 {
        Instruction::AND(target)
    } else if code == 5 {
        Instruction::XOR(target)
    } else if code == 6 {
        Instruction::OR(target)
    } else {
        Instruction::CMP(target)
    }
}

/// The 0xCB-prefixed table: bits 7-6 pick the family, bits 5-3 the shift
/// kind or the bit index, bits 2-0 the operand.
pub open spec fn decode_prefixed(byte: u8) -> Instruction {
    let target = register_target_of(byte % 8);
    let y = (byte / 8) % 8;
    let x = byte / 64;
    if x == 0 {
        if y == 0 {
            Instruction::RLC(target)
        } else if y == 1 {
            Instruction::RRC(target)
        } else if y == 2 {
            Instruction::RL(target)
        } else if y == 3 {
            Instruction::RR(target)
        } else if y == 4 {
            Instruction::SLA(target)
        } else if y == 5 {
            Instruction::SRA(target)
        } else if y == 6 {
            Instruction::SWAP(target)
        } else {
            Instruction::SRL(target)
        }
    } else if x == 1 {
        Instruction::BIT(y, target)
    } else if x == 2 {
        Instruction::RES(y, target)
    } else {
        Instruction::SET(y, target)
    }
}

/// Rows 0x00-0x3F of the unprefixed table.
pub open spec fn decode_block_0(byte: u8) -> Instruction {
    let y = (byte / 8) % 8;
    let z = byte % 8;
    let p = y / 2;
    let q = y % 2;
    if z == 0 {
        if y == 0 {
            Instruction::NOP
        } else if y == 1 {
            Instruction::LD(LoadType::SPToAddress)
        } else if y == 2 {
            Instruction::STOP
        } else if y == 3 {
            Instruction::JR(JumpType::Always)
        } else {
            Instruction::JR(condition_of((y - 4) as u8))
        }
    } else if z == 1 {
        if q == 0 {
            Instruction::LD(
                LoadType::Word(
                    if p == 0 {
                        LoadWordTarget::BC
                    } else if p == 1 {
                        LoadWordTarget::DE
                    } else if p == 2 {
                        LoadWordTarget::HL
                    } else {
                        LoadWordTarget::SP
                    },
                    LoadWordSource::D16,
                ),
            )
        } else {
            Instruction::ADDL(
                if p == 0 {
                    ArithmeticTargetLong::BC
                } else if p == 1 {
                    ArithmeticTargetLong::DE
                } else if p == 2 {
                    ArithmeticTargetLong::HL
                } else {
                    ArithmeticTargetLong::SP
                },
            )
        }
    } else if z == 2 {
        let indirect = if p == 0 {
            Indirect::BCI
        } else if p == 1 {
            Indirect::DEI
        } else if p == 2 {
            Indirect::HLINC
        } else {
            Indirect::HLDEC
        };
        if q == 0 {
            Instruction::LD(LoadType::IndirectFromA(indirect))
        } else {
            Instruction::LD(LoadType::AFromIndirect(indirect))
        }
    } else if z == 3 {
        let pair = if p == 0 {
            IncDecTarget::BC
        } else if p == 1 {
            IncDecTarget::DE
        } else if p == 2 {
            IncDecTarget::HL
        } else {
            IncDecTarget::SP
        };
        if q == 0 {
            Instruction::INC(pair)
        } else {
            Instruction::DEC(pair)
        }
    } else if z == 4 {
        Instruction::INC(inc_dec_target_of(y))
    } else if z == 5 {
        Instruction::DEC(inc_dec_target_of(y))
    } else if z == 6 {
        Instruction::LD(LoadType::Byte(load_byte_target_of(y), LoadByteSource::D8))
    } else {
        if y == 0 {
            Instruction::RLCA
        } else if y == 1 {
            Instruction::RRCA
        } else if y == 2 {
            Instruction::RLA
        } else if y == 3 {
            Instruction::RRA
        } else if y == 4 {
            Instruction::DAA
        } else if y == 5 {
            Instruction::CPL
        } else if y == 6 {
            Instruction::SCF
        } else {
            Instruction::CCF
        }
    }
}

/// Rows 0xC0-0xFF of the unprefixed table; `None` where no instruction is
/// defined (0xCB among them, which is the prefix itself).
pub open spec fn decode_block_3(byte: u8) -> Option<Instruction> {
    let y = (byte / 8) % 8;
    let z = byte % 8;
    let p = y / 2;
    let q = y % 2;
    let pair = if p == 0 {
        StackRegisters::BC
    } else if p == 1 {
        StackRegisters::DE
    } else if p == 2 {
        StackRegisters::HL
    } else {
        StackRegisters::AF
    };
    if z == 0 {
        if y < 4 {
            Some(Instruction::RET(condition_of(y)))
        } else if y == 4 {
            Some(Instruction::LD(LoadType::ByteAddressFromA(ByteAddress::A8)))
        } else if y == 5 {
            Some(Instruction::ADDL(ArithmeticTargetLong::S8))
        } else if y == 6 {
            Some(Instruction::LD(LoadType::AFromByteAddress(ByteAddress::A8)))
        } else {
            None
        }
    } else if z == 1 {
        if q == 0 {
            Some(Instruction::POP(pair))
        } else if p == 0 {
            Some(Instruction::RET(JumpType::Always))
        } else if p == 1 {
            Some(Instruction::RETI)
        } else if p == 2 {
            Some(Instruction::JPL)
        } else {
            Some(Instruction::LD(LoadType::Word(LoadWordTarget::SP, LoadWordSource::HL)))
        }
    } else if z == 2 {
        if y < 4 {
            Some(Instruction::JP(condition_of(y)))
        } else if y == 4 {
            Some(Instruction::LD(LoadType::ByteAddressFromA(ByteAddress::C)))
        } else if y == 5 {
            Some(Instruction::LD(LoadType::ByteAddressFromA(ByteAddress::A16)))
        } else if y == 6 {
            Some(Instruction::LD(LoadType::AFromByteAddress(ByteAddress::C)))
        } else {
            Some(Instruction::LD(LoadType::AFromByteAddress(ByteAddress::A16)))
        }
    } else if z == 3 {
        if y == 0 {
            Some(Instruction::JP(JumpType::Always))
        } else if y == 6 {
            Some(Instruction::DI)
        } else if y == 7 {
            Some(Instruction::EI)
        } else {
            None
        }
    } else if z == 4 {
        if y < 4 {
            Some(Instruction::CALL(condition_of(y)))
        } else {
            None
        }
    } else if z == 5 {
        if q == 0 {
            Some(Instruction::PUSH(pair))
        } else if p == 0 {
            Some(Instruction::CALL(JumpType::Always))
        } else {
            None
        }
    } else if z == 6 {
        Some(alu_instruction_of(y, ArithmeticTarget::D8))
    } else {
        Some(Instruction::RST((y * 8) as u8))
    }
}

/// The unprefixed table.
pub open spec fn decode_unprefixed(byte: u8) -> Option<Instruction> {
    let x = byte / 64;
    if x == 0 {
        Some(decode_block_0(byte))
    } else if x == 1 {
        if byte == 0x76 {
            Some(Instruction::HALT)
        } else {
            Some(
                Instruction::LD(
                    LoadType::Byte(
                        load_byte_target_of((byte / 8) % 8),
                        load_byte_source_of(byte % 8),
                    ),
                ),
            )
        }
    } else if x == 2 {
        Some(alu_instruction_of((byte / 8) % 8, arithmetic_target_of(byte % 8)))
    } else {
        decode_block_3(byte)
    }
}

/// What an opcode byte decodes to, in the 0xCB-prefixed table or the
/// unprefixed one; `None` is a decode fault.
pub open spec fn decode(byte: u8, prefixed: bool) -> Option<Instruction> {
    if prefixed {
        Some(decode_prefixed(byte))
    } else {
        decode_unprefixed(byte)
    }
}

/// The opcodes that the unprefixed table leaves undefined.
pub open spec fn is_undefined_opcode(byte: u8) -> bool {
    ||| byte == 0xCB
    ||| byte == 0xD3
    ||| byte == 0xDB
    ||| byte == 0xDD
    ||| byte == 0xE3
    ||| byte == 0xE4
    ||| byte == 0xEB
    ||| byte == 0xEC
    ||| byte == 0xED
    ||| byte == 0xF4
    ||| byte == 0xF8
    ||| byte == 0xFC
    ||| byte == 0xFD
}

fn register_target_from_code(code: u8) -> (r: RegisterTarget)
    ensures
        r == register_target_of(code),
{
    if code == 0 {
        RegisterTarget::B
    } else if code == 1 {
        RegisterTarget::C
    } else if code == 2 {
        RegisterTarget::D
    } else if code == 3 {
        RegisterTarget::E
    } else if code == 4 {
        RegisterTarget::H
    } else if code == 5 {
        RegisterTarget::L
    } else if code == 6 {
        RegisterTarget::HLI
    } else {
        RegisterTarget::A
    }
}

fn arithmetic_target_from_code(code: u8) -> (r: ArithmeticTarget)
    ensures
        r == arithmetic_target_of(code),
{
    match register_target_from_code(code) {
        RegisterTarget::A => ArithmeticTarget::A,
        RegisterTarget::B => ArithmeticTarget::B,
        RegisterTarget::C => ArithmeticTarget::C,
        RegisterTarget::D => ArithmeticTarget::D,
        RegisterTarget::E => ArithmeticTarget::E,
        RegisterTarget::H => ArithmeticTarget::H,
        RegisterTarget::L => ArithmeticTarget::L,
        RegisterTarget::HLI => ArithmeticTarget::HLI,
    }
}

fn inc_dec_target_from_code(code: u8) -> (r: IncDecTarget)
    ensures
        r == inc_dec_target_of(code),
{
    match register_target_from_code(code) {
        RegisterTarget::A => IncDecTarget::A,
        RegisterTarget::B => IncDecTarget::B,
        RegisterTarget::C => IncDecTarget::C,
        RegisterTarget::D => IncDecTarget::D,
        RegisterTarget::E => IncDecTarget::E,
        RegisterTarget::H => IncDecTarget::H,
        RegisterTarget::L => IncDecTarget::L,
        RegisterTarget::HLI => IncDecTarget::HLI,
    }
}

fn load_byte_target_from_code(code: u8) -> (r: LoadByteTarget)
    ensures
        r == load_byte_target_of(code),
{
    match register_target_from_code(code) {
        RegisterTarget::A => LoadByteTarget::A,
        RegisterTarget::B => LoadByteTarget::B,
        RegisterTarget::C => LoadByteTarget::C,
        RegisterTarget::D => LoadByteTarget::D,
        RegisterTarget::E => LoadByteTarget::E,
        RegisterTarget::H => LoadByteTarget::H,
        RegisterTarget::L => LoadByteTarget::L,
        RegisterTarget::HLI => LoadByteTarget::HLI,
    }
}

fn load_byte_source_from_code(code: u8) -> (r: LoadByteSource)
    ensures
        r == load_byte_source_of(code),
{
    match register_target_from_code(code) {
        RegisterTarget::A => LoadByteSource::A,
        RegisterTarget::B => LoadByteSource::B,
        RegisterTarget::C => LoadByteSource::C,
        RegisterTarget::D => LoadByteSource::D,
        RegisterTarget::E => LoadByteSource::E,
        RegisterTarget::H => LoadByteSource::H,
        RegisterTarget::L => LoadByteSource::L,
        RegisterTarget::HLI => LoadByteSource::HLI,
    }
}

fn condition_from_code(code: u8) -> (r: JumpType)
    ensures
        r == condition_of(code),
{
    if code == 0 {
        JumpType::NotZero
    } else if code == 1 {
        JumpType::Zero
    } else if code == 2 {
        JumpType::NotCarry
    } else {
        JumpType::Carry
    }
}

fn alu_instruction_from_code(code: u8, target: ArithmeticTarget) -> (r: Instruction)
    ensures
        r == alu_instruction_of(code, target),
{
    if code == 0 {
        Instruction::ADD(target)
    } else if code == 1 {
        Instruction::ADC(target)
    } else if code == 2 {
        Instruction::SUB(target)
    } else if code == 3 {
        Instruction::SBC(target)
    } else if code == 4 {
        Instruction::AND(target)
    } else if code == 5 {
        Instruction::XOR(target)
    } else if code == 6 {
        Instruction::OR(target)
    } else {
        Instruction::CMP(target)
    }
}

fn from_prefixed_byte(byte: u8) -> (r: Instruction)
    ensures
        r == decode_prefixed(byte),
{
    let target = register_target_from_code(byte % 8);
    let y = (byte / 8) % 8;
    let x = byte / 64;
    if x == 0 {
        if y == 0 {
            Instruction::RLC(target)
        } else if y == 1 {
            Instruction::RRC(target)
        } else if y == 2 {
            Instruction::RL(target)
        } else if y == 3 {
            Instruction::RR(target)
        } else if y == 4 {
            Instruction::SLA(target)
        } else if y == 5 {
            Instruction::SRA(target)
        } else if y == 6 {
            Instruction::SWAP(target)
        } else {
            Instruction::SRL(target)
        }
    } else if x == 1 {
        Instruction::BIT(y, target)
    } else if x == 2 {
        Instruction::RES(y, target)
    } else {
        Instruction::SET(y, target)
    }
}

fn from_block_0_byte(byte: u8) -> (r: Instruction)
    ensures
        r == decode_block_0(byte),
{
    let y = (byte / 8) % 8;
    let z = byte % 8;
    let p = y / 2;
    let q = y % 2;
    if z == 0 {
        if y == 0 {
            Instruction::NOP
        } else if y == 1 {
            Instruction::LD(LoadType::SPToAddress)
        } else if y == 2 {
            Instruction::STOP
        } else if y == 3 {
            Instruction::JR(JumpType::Always)
        } else {
            Instruction::JR(condition_from_code(y - 4))
        }
    } else if z == 1 {
        if q == 0 {
            let target = if p == 0 {
                LoadWordTarget::BC
            } else if p == 1 {
                LoadWordTarget::DE
            } else if p == 2 {
                LoadWordTarget::HL
            } else {
                LoadWordTarget::SP
            };
            Instruction::LD(LoadType::Word(target, LoadWordSource::D16))
        } else {
            let target = if p == 0 {
                ArithmeticTargetLong::BC
            } else if p == 1 {
                ArithmeticTargetLong::DE
            } else if p == 2 {
                ArithmeticTargetLong::HL
            } else {
                ArithmeticTargetLong::SP
            };
            Instruction::ADDL(target)
        }
    } else if z == 2 {
        let indirect = if p == 0 {
            Indirect::BCI
        } else if p == 1 {
            Indirect::DEI
        } else if p == 2 {
            Indirect::HLINC
        } else {
            Indirect::HLDEC
        };
        if q == 0 {
            Instruction::LD(LoadType::IndirectFromA(indirect))
        } else {
            Instruction::LD(LoadType::AFromIndirect(indirect))
        }
    } else if z == 3 {
        let pair = if p == 0 {
            IncDecTarget::BC
        } else if p == 1 {
            IncDecTarget::DE
        } else if p == 2 {
            IncDecTarget::HL
        } else {
            IncDecTarget::SP
        };
        if q == 0 {
            Instruction::INC(pair)
        } else {
            Instruction::DEC(pair)
        }
    } else if z == 4 {
        Instruction::INC(inc_dec_target_from_code(y))
    } else if z == 5 {
        Instruction::DEC(inc_dec_target_from_code(y))
    } else if z == 6 {
        Instruction::LD(LoadType::Byte(load_byte_target_from_code(y), LoadByteSource::D8))
    } else {
        if y == 0 {
            Instruction::RLCA
        } else if y == 1 {
            Instruction::RRCA
        } else if y == 2 {
            Instruction::RLA
        } else if y == 3 {
            Instruction::RRA
        } else if y == 4 {
            Instruction::DAA
        } else if y == 5 {
            Instruction::CPL
        } else if y == 6 {
            Instruction::SCF
        } else {
            Instruction::CCF
        }
    }
}

fn from_block_3_byte(byte: u8) -> (r: Option<Instruction>)
    ensures
        r == decode_block_3(byte),
{
    let y = (byte / 8) % 8;
    let z = byte % 8;
    let p = y / 2;
    let q = y % 2;
    let pair = if p == 0 {
        StackRegisters::BC
    } else if p == 1 {
        StackRegisters::DE
    } else if p == 2 {
        StackRegisters::HL
    } else {
        StackRegisters::AF
    };
    if z == 0 {
        if y < 4 {
            Some(Instruction::RET(condition_from_code(y)))
        } else if y == 4 {
            Some(Instruction::LD(LoadType::ByteAddressFromA(ByteAddress::A8)))
        } else if y == 5 {
            Some(Instruction::ADDL(ArithmeticTargetLong::S8))
        } else if y == 6 {
            Some(Instruction::LD(LoadType::AFromByteAddress(ByteAddress::A8)))
        } else {
            None
        }
    } else if z == 1 {
        if q == 0 {
            Some(Instruction::POP(pair))
        } else if p == 0 {
            Some(Instruction::RET(JumpType::Always))
        } else if p == 1 {
            Some(Instruction::RETI)
        } else if p == 2 {
            Some(Instruction::JPL)
        } else {
            Some(Instruction::LD(LoadType::Word(LoadWordTarget::SP, LoadWordSource::HL)))
        }
    } else if z == 2 {
        if y < 4 {
            Some(Instruction::JP(condition_from_code(y)))
        } else if y == 4 {
            Some(Instruction::LD(LoadType::ByteAddressFromA(ByteAddress::C)))
        } else if y == 5 {
            Some(Instruction::LD(LoadType::ByteAddressFromA(ByteAddress::A16)))
        } else if y == 6 {
            Some(Instruction::LD(LoadType::AFromByteAddress(ByteAddress::C)))
        } else {
            Some(Instruction::LD(LoadType::AFromByteAddress(ByteAddress::A16)))
        }
    } else if z == 3 {
        if y == 0 {
            Some(Instruction::JP(JumpType::Always))
        } else if y == 6 {
            Some(Instruction::DI)
        } else if y == 7 {
            Some(Instruction::EI)
        } else {
            None
        }
    } else if z == 4 {
        if y < 4 {
            Some(Instruction::CALL(condition_from_code(y)))
        } else {
            None
        }
    } else if z == 5 {
        if q == 0 {
            Some(Instruction::PUSH(pair))
        } else if p == 0 {
            Some(Instruction::CALL(JumpType::Always))
        } else {
            None
        }
    } else if z == 6 {
        Some(alu_instruction_from_code(y, ArithmeticTarget::D8))
    } else {
        Some(Instruction::RST(y * 8))
    }
}

impl Instruction {
    /// Decodes an opcode byte in the 0xCB-prefixed table or the unprefixed
    /// one; `None` when the table defines no instruction for it.
    pub fn from_byte(byte: u8, prefixed: bool) -> (r: Option<Instruction>)
        ensures
            r == decode(byte, prefixed),
            r is None <==> !prefixed && is_undefined_opcode(byte),
            r matches Some(i) ==> i.wf(),
    {
        proof {
            lemma_decode_total(byte);
        }
        if prefixed {
            Some(from_prefixed_byte(byte))
        } else {
            let x = byte / 64;
            if x == 0 {
                Some(from_block_0_byte(byte))
            } else if x == 1 {
                if byte == 0x76 {
                    Some(Instruction::HALT)
                } else {
                    let target = load_byte_target_from_code((byte / 8) % 8);
                    let source = load_byte_source_from_code(byte % 8);
                    Some(Instruction::LD(LoadType::Byte(target, source)))
                }
            } else if x == 2 {
                Some(alu_instruction_from_code((byte / 8) % 8, arithmetic_target_from_code(byte % 8)))
            } else {
                from_block_3_byte(byte)
            }
        }
    }
}

/// Decoding is total: every byte of the prefixed table is an instruction,
/// and every byte of the unprefixed table is one unless it is among the
/// listed undefined opcodes, which are decode faults. Every decoded
/// instruction is well formed.
pub proof fn lemma_decode_total(byte: u8)
    ensures
        decode(byte, true) is Some,
        decode(byte, false) is None <==> is_undefined_opcode(byte),
        decode(byte, true) matches Some(i) ==> i.wf(),
        decode(byte, false) matches Some(i) ==> i.wf(),
{
}

} // verus!
