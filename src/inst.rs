use vstd::prelude::*;

verus! {

/// One decoded instruction of the Sharp LR35902.
#[derive(Clone, Copy, Debug, PartialEq, Eq, Structural)]
pub enum Instruction {
    NOP,
    HALT,
    STOP,
    DI,
    EI,
    JR(Condition),
    JP(Condition),
    JPHL,
    RET(Condition),
    RETI,
    CALL(Condition),
    PUSH(Operand),
    POP(Operand),
    LD(Operand, Operand),
    LD16(Operand, Operand),
    LDOffset(Operand, Operand),
    INC(Operand),
    DEC(Operand),
    ADD(Operand),
    ADDHL(Operand),
    ADDSP,
    ADC(Operand),
    SUB(Operand),
    SBC(Operand),
    AND(Operand),
    OR(Operand),
    XOR(Operand),
    CP(Operand),
    CPL,
    CCF,
    SCF,
    RRA,
    RLA,
    RRCA,
    RLCA,
    RR(Operand),
    RL(Operand),
    RRC(Operand),
    RLC(Operand),
    DAA,
    BIT(u8, Operand),
    SET(u8, Operand),
    RES(u8, Operand),
    SLA(Operand),
    SRA(Operand),
    SWAP(Operand),
    SRL(Operand),
    RST(u8),
    PREFIX,
}

/// An 8-bit register; `HL` stands for the byte that HL points to.
#[derive(Clone, Copy, Debug, PartialEq, Eq, Structural)]
pub enum Reg8Index {
    A,
    B,
    C,
    D,
    E,
    HL,
    H,
    L,
}

/// A 16-bit register pair; `HLP` and `HLM` are HL with a post-increment or post-decrement.
#[derive(Clone, Copy, Debug, PartialEq, Eq, Structural)]
pub enum Reg16Index {
    BC,
    DE,
    HL,
    HLP,
    HLM,
    SP,
    AF,
}

#[derive(Clone, Copy, Debug, PartialEq, Eq, Structural)]
pub enum Operand {
    Register8(Reg8Index),
    Register16(Reg16Index),
    /// The byte that follows the opcode.
    Value8,
    /// The little-endian word that follows the opcode.
    Value16,
}

#[derive(Clone, Copy, Debug, PartialEq, Eq, Structural)]
pub enum Condition {
    NZ,
    Z,
    NC,
    C,
    ALWAYS,
}

pub open spec fn spec_cond_group(i: u8) -> Condition {
    if i == 0 {
        Condition::NZ
    } else if i == 1 {
        Condition::Z
    } else if i == 2 {
        Condition::NC
    } else {
        Condition::C
    }
}

/// The operand that the three register bits of an opcode name: B, C, D, E, H, L, (HL), A.
pub open spec fn spec_reg8_group(i: u8) -> Operand {
    Operand::Register8(
        if i == 0 {
            Reg8Index::B
        } else if i == 1 {
            Reg8Index::C
        } else if i == 2 {
            Reg8Index::D
        } else if i == 3 {
            Reg8Index::E
        } else if i == 4 {
            Reg8Index::H
        } else if i == 5 {
            Reg8Index::L
        } else if i == 6 {
            Reg8Index::HL
        } else {
            Reg8Index::A
        },
    )
}

/// BC, DE, HL, SP.
pub open spec fn spec_reg16_group1(i: u8) -> Operand {
    Operand::Register16(
        if i == 0 {
            Reg16Index::BC
        } else if i == 1 {
            Reg16Index::DE
        } else if i == 2 {
            Reg16Index::HL
        } else {
            Reg16Index::SP
        },
    )
}

/// (BC), (DE), (HL+), (HL-).
pub open spec fn spec_reg16_group2(i: u8) -> Operand {
    Operand::Register16(
        if i == 0 {
            Reg16Index::BC
        } else if i == 1 {
            Reg16Index::DE
        } else if i == 2 {
            Reg16Index::HLP
        } else {
            Reg16Index::HLM
        },
    )
}

/// BC, DE, HL, AF.
pub open spec fn spec_reg16_group3(i: u8) -> Operand {
    Operand::Register16(
        if i == 0 {
            Reg16Index::BC
        } else if i == 1 {
            Reg16Index::DE
        } else if i == 2 {
            Reg16Index::HL
        } else {
            Reg16Index::AF
        },
    )
}

fn cond_group(i: u8) -> (r: Condition)
    ensures
        r == spec_cond_group(i),
{
    if i == 0 {
        Condition::NZ
    } else if i == 1 {
        Condition::Z
    } else if i == 2 {
        Condition::NC
    } else {
        Condition::C
    }
}

fn reg8_group(i: u8) -> (r: Operand)
    ensures
        r == spec_reg8_group(i),
{
    Operand::Register8(
        if i == 0 {
            Reg8Index::B
        } else if i == 1 {
            Reg8Index::C
        } else if i == 2 {
            Reg8Index::D
        } else if i == 3 {
            Reg8Index::E
        } else if i == 4 {
            Reg8Index::H
        } else if i == 5 {
            Reg8Index::L
        } else if i == 6 {
            Reg8Index::HL
        } else {
            Reg8Index::A
        },
    )
}

fn reg16_group1(i: u8) -> (r: Operand)
    ensures
        r == spec_reg16_group1(i),
{
    Operand::Register16(
        if i == 0 {
            Reg16Index::BC
        } else if i == 1 {
            Reg16Index::DE
        } else if i == 2 {
            Reg16Index::HL
        } else {
            Reg16Index::SP
        },
    )
}

fn reg16_group2(i: u8) -> (r: Operand)
    ensures
        r == spec_reg16_group2(i),
{
    Operand::Register16(
        if i == 0 {
            Reg16Index::BC
        } else if i == 1 {
            Reg16Index::DE
        } else if i == 2 {
            Reg16Index::HLP
        } else {
            Reg16Index::HLM
        },
    )
}

fn reg16_group3(i: u8) -> (r: Operand)
    ensures
        r == spec_reg16_group3(i),
{
    Operand::Register16(
        if i == 0 {
            Reg16Index::BC
        } else if i == 1 {
            Reg16Index::DE
        } else if i == 2 {
            Reg16Index::HL
        } else {
            Reg16Index::AF
        },
    )
}

/// The operand of an arithmetic or logic opcode: the register bits, or the immediate byte for
/// the form in the 0xC0 block.
pub open spec fn spec_alu_operand(byte: u8) -> Operand {
    if byte >= 0xC0 {
        Operand::Value8
    } else {
        spec_reg8_group(byte % 8)
    }
}

fn alu_operand(byte: u8) -> (r: Operand)
    ensures
        r == spec_alu_operand(byte),
{
    if byte >= 0xC0 {
        Operand::Value8
    } else {
        reg8_group(byte % 8)
    }
}

/// The main opcode table.
pub open spec fn decode(byte: u8) -> Option<Instruction> {
    match byte {
        0x00 => Some(Instruction::NOP),
        0x10 => Some(Instruction::STOP),
        0x76 => Some(Instruction::HALT),
        0xCB => Some(Instruction::PREFIX),
        0xF3 => Some(Instruction::DI),
        0xFB => Some(Instruction::EI),
        0x01 | 0x11 | 0x21 | 0x31 => Some(
            Instruction::LD16(spec_reg16_group1(byte / 16), Operand::Value16),
        ),
        0x02 | 0x12 | 0x22 | 0x32 => Some(Instruction::LD(spec_reg16_group2(byte / 16), Operand::Register8(Reg8Index::A))),
        0x03 | 0x13 | 0x23 | 0x33 => Some(Instruction::INC(spec_reg16_group1(byte / 16))),
        0x04 | 0x0C | 0x14 | 0x1C | 0x24 | 0x2C | 0x34 | 0x3C => Some(
            Instruction::INC(spec_reg8_group(byte / 8)),
        ),
        0x05 | 0x0D | 0x15 | 0x1D | 0x25 | 0x2D | 0x35 | 0x3D => Some(
            Instruction::DEC(spec_reg8_group(byte / 8)),
        ),
        0x06 | 0x0E | 0x16 | 0x1E | 0x26 | 0x2E | 0x36 | 0x3E => Some(
            Instruction::LD(spec_reg8_group(byte / 8), Operand::Value8),
        ),
        0x07 => Some(Instruction::RLCA),
        0x17 => Some(Instruction::RLA),
        0x27 => Some(Instruction::DAA),
        0x37 => Some(Instruction::SCF),
        0x08 => Some(Instruction::LD16(Operand::Value16, Operand::Register16(Reg16Index::SP))),
        0x18 => Some(Instruction::JR(Condition::ALWAYS)),
        0x20 | 0x28 | 0x30 | 0x38 => Some(Instruction::JR(spec_cond_group((byte / 8) % 4))),
        0x09 | 0x19 | 0x29 | 0x39 => Some(Instruction::ADDHL(spec_reg16_group1(byte / 16))),
        0x0A | 0x1A | 0x2A | 0x3A => Some(Instruction::LD(Operand::Register8(Reg8Index::A), spec_reg16_group2(byte / 16))),
        0x0B | 0x1B | 0x2B | 0x3B => Some(Instruction::DEC(spec_reg16_group1(byte / 16))),
        0x0F => Some(Instruction::RRCA),
        0x1F => Some(Instruction::RRA),
        0x2F => Some(Instruction::CPL),
        0x3F => Some(Instruction::CCF),
        _ if (0x40 <= byte <= 0x75 || 0x77 <= byte <= 0x7F) => Some(
            Instruction::LD(spec_reg8_group((byte / 8) % 8), spec_reg8_group(byte % 8)),
        ),
        _ if (0x80 <= byte <= 0x87 || byte == 0xC6) => Some(Instruction::ADD(spec_alu_operand(byte))),
        _ if (0x88 <= byte <= 0x8F || byte == 0xCE) => Some(Instruction::ADC(spec_alu_operand(byte))),
        _ if (0x90 <= byte <= 0x97 || byte == 0xD6) => Some(Instruction::SUB(spec_alu_operand(byte))),
        _ if (0x98 <= byte <= 0x9F || byte == 0xDE) => Some(Instruction::SBC(spec_alu_operand(byte))),
        _ if (0xA0 <= byte <= 0xA7 || byte == 0xE6) => Some(Instruction::AND(spec_alu_operand(byte))),
        _ if (0xA8 <= byte <= 0xAF || byte == 0xEE) => Some(Instruction::XOR(spec_alu_operand(byte))),
        _ if (0xB0 <= byte <= 0xB7 || byte == 0xF6) => Some(Instruction::OR(spec_alu_operand(byte))),
        _ if (0xB8 <= byte <= 0xBF || byte == 0xFE) => Some(Instruction::CP(spec_alu_operand(byte))),
        0xC9 => Some(Instruction::RET(Condition::ALWAYS)),
        0xC0 | 0xC8 | 0xD0 | 0xD8 => Some(Instruction::RET(spec_cond_group((byte / 8) % 4))),
        0xC1 | 0xD1 | 0xE1 | 0xF1 => Some(Instruction::POP(spec_reg16_group3((byte / 16) % 4))),
        0xC3 => Some(Instruction::JP(Condition::ALWAYS)),
        0xC2 | 0xCA | 0xD2 | 0xDA => Some(Instruction::JP(spec_cond_group((byte / 8) % 4))),
        0xCD => Some(Instruction::CALL(Condition::ALWAYS)),
        0xC4 | 0xCC | 0xD4 | 0xDC => Some(Instruction::CALL(spec_cond_group((byte / 8) % 4))),
        0xC5 | 0xD5 | 0xE5 | 0xF5 => Some(Instruction::PUSH(spec_reg16_group3((byte / 16) % 4))),
        0xC7 | 0xCF | 0xD7 | 0xDF | 0xE7 | 0xEF | 0xF7 | 0xFF => Some(
            Instruction::RST((byte - 0xC7) as u8),
        ),
        0xD9 => Some(Instruction::RETI),
        0xE0 => Some(Instruction::LDOffset(Operand::Value8, Operand::Register8(Reg8Index::A))),
        0xE2 => Some(Instruction::LDOffset(Operand::Register8(Reg8Index::C), Operand::Register8(Reg8Index::A))),
        0xF0 => Some(Instruction::LDOffset(Operand::Register8(Reg8Index::A), Operand::Value8)),
        0xF2 => Some(Instruction::LDOffset(Operand::Register8(Reg8Index::A), Operand::Register8(Reg8Index::C))),
        0xF9 => Some(Instruction::LD16(Operand::Register16(Reg16Index::SP), Operand::Register16(Reg16Index::HL))),
        0xEA => Some(Instruction::LD(Operand::Value16, Operand::Register8(Reg8Index::A))),
        0xFA => Some(Instruction::LD(Operand::Register8(Reg8Index::A), Operand::Value16)),
        0xE8 => Some(Instruction::ADDSP),
        0xF8 => Some(Instruction::LDOffset(Operand::Register16(Reg16Index::HL), Operand::Value8)),
        0xE9 => Some(Instruction::JPHL),
        _ => None,
    }
}

/// The table of the byte that follows the 0xCB prefix.
pub open spec fn decode_cb(byte: u8) -> Option<Instruction> {
    let op = spec_reg8_group(byte % 8);
    let n = ((byte / 8) % 8) as u8;
    if byte < 0x08 {
        Some(Instruction::RLC(op))
    } else if byte < 0x10 {
        Some(Instruction::RRC(op))
    } else if byte < 0x18 {
        Some(Instruction::RL(op))
    } else if byte < 0x20 {
        Some(Instruction::RR(op))
    } else if byte < 0x28 {
        Some(Instruction::SLA(op))
    } else if byte < 0x30 {
        Some(Instruction::SRA(op))
    } else if byte < 0x38 {
        Some(Instruction::SWAP(op))
    } else if byte < 0x40 {
        Some(Instruction::SRL(op))
    } else if byte < 0x80 {
        Some(Instruction::BIT(n, op))
    } else if byte < 0xC0 {
        Some(Instruction::RES(n, op))
    } else {
        Some(Instruction::SET(n, op))
    }
}

/// The opcodes that the main table leaves unassigned.
pub open spec fn is_unassigned(byte: u8) -> bool {
    byte == 0xD3 || byte == 0xDB || byte == 0xDD || byte == 0xE3 || byte == 0xE4 || byte == 0xEB
        || byte == 0xEC || byte == 0xED || byte == 0xF4 || byte == 0xFC || byte == 0xFD
}

impl Instruction {
    pub fn from_byte(byte: u8) -> (r: Option<Instruction>)
        ensures
            r == decode(byte),
            r is None <==> is_unassigned(byte),
    {
        match byte {
            0x00 => Some(Instruction::NOP),
            0x10 => Some(Instruction::STOP),
            0x76 => Some(Instruction::HALT),
            0xCB => Some(Instruction::PREFIX),
            0xF3 => Some(Instruction::DI),
            0xFB => Some(Instruction::EI),
            0x01 | 0x11 | 0x21 | 0x31 => Some(
                Instruction::LD16(reg16_group1(byte / 16), Operand::Value16),
            ),
            0x02 | 0x12 | 0x22 | 0x32 => Some(Instruction::LD(reg16_group2(byte / 16), Operand::Register8(Reg8Index::A))),
            0x03 | 0x13 | 0x23 | 0x33 => Some(Instruction::INC(reg16_group1(byte / 16))),
            0x04 | 0x0C | 0x14 | 0x1C | 0x24 | 0x2C | 0x34 | 0x3C => Some(
                Instruction::INC(reg8_group(byte / 8)),
            ),
            0x05 | 0x0D | 0x15 | 0x1D | 0x25 | 0x2D | 0x35 | 0x3D => Some(
                Instruction::DEC(reg8_group(byte / 8)),
            ),
            0x06 | 0x0E | 0x16 | 0x1E | 0x26 | 0x2E | 0x36 | 0x3E => Some(
                Instruction::LD(reg8_group(byte / 8), Operand::Value8),
            ),
            0x07 => Some(Instruction::RLCA),
            0x17 => Some(Instruction::RLA),
            0x27 => Some(Instruction::DAA),
            0x37 => Some(Instruction::SCF),
            0x08 => Some(
                Instruction::LD16(Operand::Value16, Operand::Register16(Reg16Index::SP)),
            ),
            0x18 => Some(Instruction::JR(Condition::ALWAYS)),
            0x20 | 0x28 | 0x30 | 0x38 => Some(Instruction::JR(cond_group((byte / 8) % 4))),
            0x09 | 0x19 | 0x29 | 0x39 => Some(Instruction::ADDHL(reg16_group1(byte / 16))),
            0x0A | 0x1A | 0x2A | 0x3A => Some(Instruction::LD(Operand::Register8(Reg8Index::A), reg16_group2(byte / 16))),
            0x0B | 0x1B | 0x2B | 0x3B => Some(Instruction::DEC(reg16_group1(byte / 16))),
            0x0F => Some(Instruction::RRCA),
            0x1F => Some(Instruction::RRA),
            0x2F => Some(Instruction::CPL),
            0x3F => Some(Instruction::CCF),
            0x40..=0x75 | 0x77..=0x7F => Some(
                Instruction::LD(reg8_group((byte / 8) % 8), reg8_group(byte % 8)),
            ),
            0x80..=0x87 | 0xC6 => Some(Instruction::ADD(alu_operand(byte))),
            0x88..=0x8F | 0xCE => Some(Instruction::ADC(alu_operand(byte))),
            0x90..=0x97 | 0xD6 => Some(Instruction::SUB(alu_operand(byte))),
            0x98..=0x9F | 0xDE => Some(Instruction::SBC(alu_operand(byte))),
            0xA0..=0xA7 | 0xE6 => Some(Instruction::AND(alu_operand(byte))),
            0xA8..=0xAF | 0xEE => Some(Instruction::XOR(alu_operand(byte))),
            0xB0..=0xB7 | 0xF6 => Some(Instruction::OR(alu_operand(byte))),
            0xB8..=0xBF | 0xFE => Some(Instruction::CP(alu_operand(byte))),
            0xC9 => Some(Instruction::RET(Condition::ALWAYS)),
            0xC0 | 0xC8 | 0xD0 | 0xD8 => Some(Instruction::RET(cond_group((byte / 8) % 4))),
            0xC1 | 0xD1 | 0xE1 | 0xF1 => Some(Instruction::POP(reg16_group3((byte / 16) % 4))),
            0xC3 => Some(Instruction::JP(Condition::ALWAYS)),
            0xC2 | 0xCA | 0xD2 | 0xDA => Some(Instruction::JP(cond_group((byte / 8) % 4))),
            0xCD => Some(Instruction::CALL(Condition::ALWAYS)),
            0xC4 | 0xCC | 0xD4 | 0xDC => Some(Instruction::CALL(cond_group((byte / 8) % 4))),
            0xC5 | 0xD5 | 0xE5 | 0xF5 => Some(Instruction::PUSH(reg16_group3((byte / 16) % 4))),
            0xC7 | 0xCF | 0xD7 | 0xDF | 0xE7 | 0xEF | 0xF7 | 0xFF => Some(
                Instruction::RST(byte - 0xC7),
            ),
            0xD9 => Some(Instruction::RETI),
            0xE0 => Some(Instruction::LDOffset(Operand::Value8, Operand::Register8(Reg8Index::A))),
            0xE2 => Some(Instruction::LDOffset(Operand::Register8(Reg8Index::C), Operand::Register8(Reg8Index::A))),
            0xF0 => Some(Instruction::LDOffset(Operand::Register8(Reg8Index::A), Operand::Value8)),
            0xF2 => Some(Instruction::LDOffset(Operand::Register8(Reg8Index::A), Operand::Register8(Reg8Index::C))),
            0xF9 => Some(Instruction::LD16(Operand::Register16(Reg16Index::SP), Operand::Register16(Reg16Index::HL))),
            0xEA => Some(Instruction::LD(Operand::Value16, Operand::Register8(Reg8Index::A))),
            0xFA => Some(Instruction::LD(Operand::Register8(Reg8Index::A), Operand::Value16)),
            0xE8 => Some(Instruction::ADDSP),
            0xF8 => Some(Instruction::LDOffset(Operand::Register16(Reg16Index::HL), Operand::Value8)),
            0xE9 => Some(Instruction::JPHL),
            _ => None,
        }
    }

    pub fn from_byte_prefixed(byte: u8) -> (r: Option<Instruction>)
        ensures
            r == decode_cb(byte),
            r is Some,
    {
        let op = reg8_group(byte % 8);
        let n = (byte / 8) % 8;
        if byte < 0x08 {
            Some(Instruction::RLC(op))
        } else if byte < 0x10 {
            Some(Instruction::RRC(op))
        } else if byte < 0x18 {
            Some(Instruction::RL(op))
        } else if byte < 0x20 {
            Some(Instruction::RR(op))
        } else if byte < 0x28 {
            Some(Instruction::SLA(op))
        } else if byte < 0x30 {
            Some(Instruction::SRA(op))
        } else if byte < 0x38 {
            Some(Instruction::SWAP(op))
        } else if byte < 0x40 {
            Some(Instruction::SRL(op))
        } else if byte < 0x80 {
            Some(Instruction::BIT(n, op))
        } else if byte < 0xC0 {
            Some(Instruction::RES(n, op))
        } else {
            Some(Instruction::SET(n, op))
        }
    }
}

/// Base cost of an opcode of the main table, in machine cycles; a conditional branch is
/// charged as not taken, and an unassigned byte costs nothing.
pub open spec fn spec_inst_time(byte: u8) -> u8 {
    match byte {
        0x08 => 5,
        0xCD => 6,
        0x01 | 0x11 | 0x21 | 0x31 | 0x34 | 0x35 | 0x36 | 0x18 | 0xC1 | 0xD1 | 0xE1 | 0xF1 | 0xC2
        | 0xCA | 0xD2 | 0xDA | 0xC4 | 0xCC | 0xD4 | 0xDC | 0xE0 | 0xF0 | 0xF8 => 3,
        0xC3 | 0xC9 | 0xD9 | 0xC5 | 0xD5 | 0xE5 | 0xF5 | 0xC7 | 0xCF | 0xD7 | 0xDF | 0xE7 | 0xEF
        | 0xF7 | 0xFF | 0xE8 | 0xEA | 0xFA => 4,
        0x02 | 0x12 | 0x22 | 0x32 | 0x03 | 0x13 | 0x23 | 0x33 | 0x06 | 0x0E | 0x16 | 0x1E | 0x26
        | 0x2E | 0x3E | 0x09 | 0x19 | 0x29 | 0x39 | 0x0A | 0x1A | 0x2A | 0x3A | 0x0B | 0x1B | 0x2B
        | 0x3B | 0x20 | 0x28 | 0x30 | 0x38 | 0x70 | 0x71 | 0x72 | 0x73 | 0x74 | 0x75 | 0x77 | 0xC0 | 0xC8 | 0xD0 | 0xD8
        | 0xC6 | 0xCE | 0xD6 | 0xDE | 0xE6 | 0xEE | 0xF6 | 0xFE | 0xE2 | 0xF2 | 0xF9 => 2,
        0x46 | 0x4E | 0x56 | 0x5E | 0x66 | 0x6E | 0x7E | 0x86 | 0x8E | 0x96 | 0x9E | 0xA6 | 0xAE
        | 0xB6 | 0xBE => 2,
        0xD3 | 0xDB | 0xDD | 0xE3 | 0xE4 | 0xEB | 0xEC | 0xED | 0xF4 | 0xFC | 0xFD => 0,
        _ => 1,
    }
}

/// Cost of a 0xCB-prefixed opcode, prefix included, in machine cycles.
pub open spec fn spec_inst_cb_time(byte: u8) -> u8 {
    if byte % 8 != 6 {
        2
    } else if 0x40 <= byte < 0x80 {
        3
    } else {
        4
    }
}

pub fn inst_time(byte: u8) -> (r: u8)
    ensures
        r == spec_inst_time(byte),
        r <= 6,
{
    match byte {
        0x08 => 5,
        0xCD => 6,
        0x01 | 0x11 | 0x21 | 0x31 | 0x34 | 0x35 | 0x36 | 0x18 | 0xC1 | 0xD1 | 0xE1 | 0xF1 | 0xC2
        | 0xCA | 0xD2 | 0xDA | 0xC4 | 0xCC | 0xD4 | 0xDC | 0xE0 | 0xF0 | 0xF8 => 3,
        0xC3 | 0xC9 | 0xD9 | 0xC5 | 0xD5 | 0xE5 | 0xF5 | 0xC7 | 0xCF | 0xD7 | 0xDF | 0xE7 | 0xEF
        | 0xF7 | 0xFF | 0xE8 | 0xEA | 0xFA => 4,
        0x02 | 0x12 | 0x22 | 0x32 | 0x03 | 0x13 | 0x23 | 0x33 | 0x06 | 0x0E | 0x16 | 0x1E | 0x26
        | 0x2E | 0x3E | 0x09 | 0x19 | 0x29 | 0x39 | 0x0A | 0x1A | 0x2A | 0x3A | 0x0B | 0x1B | 0x2B
        | 0x3B | 0x20 | 0x28 | 0x30 | 0x38 | 0x70..=0x75 | 0x77 | 0xC0 | 0xC8 | 0xD0 | 0xD8
        | 0xC6 | 0xCE | 0xD6 | 0xDE | 0xE6 | 0xEE | 0xF6 | 0xFE | 0xE2 | 0xF2 | 0xF9 => 2,
        0x46 | 0x4E | 0x56 | 0x5E | 0x66 | 0x6E | 0x7E | 0x86 | 0x8E | 0x96 | 0x9E | 0xA6 | 0xAE
        | 0xB6 | 0xBE => 2,
        0xD3 | 0xDB | 0xDD | 0xE3 | 0xE4 | 0xEB | 0xEC | 0xED | 0xF4 | 0xFC | 0xFD => 0,
        _ => 1,
    }
}

pub fn inst_cb_time(byte: u8) -> (r: u8)
    ensures
        r == spec_inst_cb_time(byte),
        r <= 4,
{
    if byte % 8 != 6 {
        2
    } else if 0x40 <= byte && byte < 0x80 {
        3
    } else {
        4
    }
}

/// How many of the opcodes below `n` the main table leaves unassigned.
pub open spec fn unassigned_below(n: nat) -> nat
    decreases n,
{
    if n == 0 {
        0
    } else {
        unassigned_below((n - 1) as nat) + if decode((n - 1) as u8) is None {
            1nat
        } else {
            0
        }
    }
}

/// An opcode of the main table is unassigned exactly when it is one of the eleven holes.
pub proof fn lemma_decode_none(byte: u8)
    ensures
        decode(byte) is None <==> is_unassigned(byte),
{
}

/// Decode coverage: the main table leaves exactly 11 of the 256 opcodes unassigned, and the
/// table after the 0xCB prefix assigns all of them.
#[verifier::rlimit(100)]
pub proof fn lemma_decode_coverage()
    ensures
        unassigned_below(256) == 11,
        forall|b: u8| #[trigger] decode_cb(b) is Some,
{
    assert forall|b: u8| #[trigger] decode(b) is None <==> is_unassigned(b) by {
        lemma_decode_none(b);
    }
    assert(unassigned_below(16) == 0) by {
        reveal_with_fuel(unassigned_below, 17);
    }
    assert(unassigned_below(32) == 0) by {
        reveal_with_fuel(unassigned_below, 17);
    }
    assert(unassigned_below(48) == 0) by {
        reveal_with_fuel(unassigned_below, 17);
    }
    assert(unassigned_below(64) == 0) by {
        reveal_with_fuel(unassigned_below, 17);
    }
    assert(unassigned_below(80) == 0) by {
        reveal_with_fuel(unassigned_below, 17);
    }
    assert(unassigned_below(96) == 0) by {
        reveal_with_fuel(unassigned_below, 17);
    }
    assert(unassigned_below(112) == 0) by {
        reveal_with_fuel(unassigned_below, 17);
    }
    assert(unassigned_below(128) == 0) by {
        reveal_with_fuel(unassigned_below, 17);
    }
    assert(unassigned_below(144) == 0) by {
        reveal_with_fuel(unassigned_below, 17);
    }
    assert(unassigned_below(160) == 0) by {
        reveal_with_fuel(unassigned_below, 17);
    }
    assert(unassigned_below(176) == 0) by {
        reveal_with_fuel(unassigned_below, 17);
    }
    assert(unassigned_below(192) == 0) by {
        reveal_with_fuel(unassigned_below, 17);
    }
    assert(unassigned_below(208) == 0) by {
        reveal_with_fuel(unassigned_below, 17);
    }
    assert(unassigned_below(224) == 3) by {
        reveal_with_fuel(unassigned_below, 17);
    }
    assert(unassigned_below(240) == 8) by {
        reveal_with_fuel(unassigned_below, 17);
    }
    assert(unassigned_below(256) == 11) by {
        reveal_with_fuel(unassigned_below, 17);
    }
}

} // verus!
