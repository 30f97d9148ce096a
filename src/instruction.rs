use vstd::prelude::*;

verus! {

/// Where an operand lives.
#[derive(Debug, Clone, Copy, PartialEq, Eq, Structural)]
pub enum Target {
    A,
    B,
    C,
    D,
    E,
    H,
    L,
    AF,
    BC,
    DE,
    /// As an 8-bit operand: the memory cell that HL addresses.
    HL,
    /// The cell that HL addresses, HL incremented after the access.
    HLINC,
    /// The cell that HL addresses, HL decremented after the access.
    HLDEC,
    SP,
    /// The byte that follows the opcode.
    D8,
}

/// The flag test of a conditional jump, call or return.
#[derive(Debug, Clone, Copy, PartialEq, Eq, Structural)]
pub enum Condition {
    NotZero,
    Zero,
    NotCarry,
    Carry,
    Always,
}

/// An instruction of the primary opcode table.
#[derive(Debug, Clone, Copy, PartialEq, Eq, Structural)]
pub enum Instruction {
    NOP,
    JP(Condition),
    DI,
    EI,
    LDIMM16(Target),
    /// Store A at the 16-bit immediate address.
    LD16A,
    /// Load A from the 16-bit immediate address.
    LDA16,
    LDIMM8(Target),
    /// Store A at 0xFF00 plus the 8-bit immediate.
    LD8A,
    /// Load A from 0xFF00 plus the 8-bit immediate.
    LDA8,
    /// Store A at 0xFF00 plus C.
    LDCA,
    /// Load A from 0xFF00 plus C.
    LDAC,
    /// Copy from the first selector to the second.
    LDRR(Target, Target),
    CALL(Condition),
    RET(Condition),
    PUSH(Target),
    POP(Target),
    JR(Condition),
    INC16(Target),
    DEC16(Target),
    INC8(Target),
    DEC8(Target),
    ADD(Target),
    ADC(Target),
    SUB(Target),
    SBC(Target),
    AND(Target),
    XOR(Target),
    OR(Target),
    CMP(Target),
    RST(u16),
    CPL,
    CCF,
}

/// An instruction of the table behind the 0xCB prefix.
#[derive(Debug, Clone, Copy, PartialEq, Eq, Structural)]
pub enum CBInstruction {
    RLC(Target),
    RRC(Target),
    RL(Target),
    RR(Target),
    SLA(Target),
    SRA(Target),
    SWAP(Target),
    SRL(Target),
    BIT(Target, u8),
    RES(Target, u8),
    SET(Target, u8),
}

/// The 8-bit operand that a 3-bit opcode field selects.
pub open spec fn reg_field(i: int) -> Target {
    if i == 0 {
        Target::B
    } else if i == 1 {
        Target::C
    } else if i == 2 {
        Target::D
    } else if i == 3 {
        Target::E
    } else if i == 4 {
        Target::H
    } else if i == 5 {
        Target::L
    } else if i == 6 {
        Target::HL
    } else {
        Target::A
    }
}

/// The register pair of 16-bit loads and arithmetic.
pub open spec fn pair_field(i: int) -> Target {
    if i == 0 {
        Target::BC
    } else if i == 1 {
        Target::DE
    } else if i == 2 {
        Target::HL
    } else {
        Target::SP
    }
}

/// The register pair of PUSH and POP.
pub open spec fn stack_field(i: int) -> Target {
    if i == 0 {
        Target::BC
    } else if i == 1 {
        Target::DE
    } else if i == 2 {
        Target::HL
    } else {
        Target::AF
    }
}

/// The memory operand of the accumulator loads through a pair.
pub open spec fn indirect_field(i: int) -> Target {
    if i == 0 {
        Target::BC
    } else if i == 1 {
        Target::DE
    } else if i == 2 {
        Target::HLINC
    } else {
        Target::HLDEC
    }
}

pub open spec fn cond_field(i: int) -> Condition {
    if i == 0 {
        Condition::NotZero
    } else if i == 1 {
        Condition::Zero
    } else if i == 2 {
        Condition::NotCarry
    } else {
        Condition::Carry
    }
}

pub open spec fn alu_field(op: int, t: Target) -> Instruction {
    if op == 0 {
        Instruction::ADD(t)
    } else if op == 1 {
        Instruction::ADC(t)
    } else if op == 2 {
        Instruction::SUB(t)
    } else if op == 3 {
        Instruction::SBC(t)
    } else if op == 4 {
        Instruction::AND(t)
    } else if op == 5 {
        Instruction::XOR(t)
    } else if op == 6 {
        Instruction::OR(t)
    } else {
        Instruction::CMP(t)
    }
}

/// The primary table, read by the opcode's fields: `x` is bits 7-6, `y` bits
/// 5-3 (split into `p`, bits 5-4, and `q`, bit 3) and `z` bits 2-0.
#[verifier::opaque]
pub open spec fn decode(b: u8) -> Option<Instruction> {
    let x = b as int / 64;
    let y = (b as int / 8) % 8;
    let z = b as int % 8;
    let p = y / 2;
    let q = y % 2;
    if x == 0 {
        if z == 0 {
            if y == 0 {
                Some(Instruction::NOP)
            } else if y == 3 {
                Some(Instruction::JR(Condition::Always))
            } else if y >= 4 {
                Some(Instruction::JR(cond_field(y - 4)))
            } else {
                None
            }
        } else if z == 1 {
            if q == 0 {
                Some(Instruction::LDIMM16(pair_field(p)))
            } else {
                None
            }
        } else if z == 2 {
            if q == 0 {
                Some(Instruction::LDRR(Target::A, indirect_field(p)))
            } else {
                Some(Instruction::LDRR(indirect_field(p), Target::A))
            }
        } else if z == 3 {
            if q == 0 {
                Some(Instruction::INC16(pair_field(p)))
            } else {
                Some(Instruction::DEC16(pair_field(p)))
            }
        } else if z == 4 {
            Some(Instruction::INC8(reg_field(y)))
        } else if z == 5 {
            Some(Instruction::DEC8(reg_field(y)))
        } else if z == 6 {
            Some(Instruction::LDIMM8(reg_field(y)))
        } else if y == 5 {
            Some(Instruction::CPL)
        } else if y == 7 {
            Some(Instruction::CCF)
        } else {
            None
        }
    } else if x == 1 {
        if b == 0x76 {
            None
        } else {
            Some(Instruction::LDRR(reg_field(z), reg_field(y)))
        }
    } else if x == 2 {
        Some(alu_field(y, reg_field(z)))
    } else if z == 0 {
        if y < 4 {
            Some(Instruction::RET(cond_field(y)))
        } else if y == 4 {
            Some(Instruction::LD8A)
        } else if y == 6 {
            Some(Instruction::LDA8)
        } else {
            None
        }
    } else if z == 1 {
        if q == 0 {
            Some(Instruction::POP(stack_field(p)))
        } else if y == 1 {
            Some(Instruction::RET(Condition::Always))
        } else {
            None
        }
    } else if z == 2 {
        if y < 4 {
            Some(Instruction::JP(cond_field(y)))
        } else if y == 4 {
            Some(Instruction::LDCA)
        } else if y == 5 {
            Some(Instruction::LD16A)
        } else if y == 6 {
            Some(Instruction::LDAC)
        } else {
            Some(Instruction::LDA16)
        }
    } else if z == 3 {
        if y == 0 {
            Some(Instruction::JP(Condition::Always))
        } else if y == 6 {
            Some(Instruction::DI)
        } else if y == 7 {
            Some(Instruction::EI)
        } else {
            None
        }
    } else if z == 4 {
        if y < 4 {
            Some(Instruction::CALL(cond_field(y)))
        } else {
            None
        }
    } else if z == 5 {
        if q == 0 {
            Some(Instruction::PUSH(stack_field(p)))
        } else if y == 1 {
            Some(Instruction::CALL(Condition::Always))
        } else {
            None
        }
    } else if z == 6 {
        Some(alu_field(y, Target::D8))
    } else {
        Some(Instruction::RST((y * 8) as u16))
    }
}

/// The extended table: bits 2-0 select the operand, bits 7-3 the operation.
pub open spec fn decode_cb(b: u8) -> CBInstruction {
    let t = reg_field(b as int % 8);
    let op = b as int / 8;
    if op == 0 {
        CBInstruction::RLC(t)
    } else if op == 1 {
        CBInstruction::RRC(t)
    } else if op == 2 {
        CBInstruction::RL(t)
    } else if op == 3 {
        CBInstruction::RR(t)
    } else if op == 4 {
        CBInstruction::SLA(t)
    } else if op == 5 {
        CBInstruction::SRA(t)
    } else if op == 6 {
        CBInstruction::SWAP(t)
    } else if op == 7 {
        CBInstruction::SRL(t)
    } else if op < 16 {
        CBInstruction::BIT(t, (op - 8) as u8)
    } else if op < 24 {
        CBInstruction::RES(t, (op - 16) as u8)
    } else {
        CBInstruction::SET(t, (op - 24) as u8)
    }
}

impl Instruction {
    /// Decodes a primary opcode; `None` for a byte that the table does not
    /// model.
    #[verifier::rlimit(50)]
    pub fn from_byte(byte: u8) -> (r: Option<Instruction>)
        ensures
            r == decode(byte),
    {
        proof {
            reveal(decode);
        }
        match byte {
            0x00 => Some(Instruction::NOP),
            0x01 => Some(Instruction::LDIMM16(Target::BC)),
            0x02 => Some(Instruction::LDRR(Target::A, Target::BC)),
            0x03 => Some(Instruction::INC16(Target::BC)),
            0x04 => Some(Instruction::INC8(Target::B)),
            0x05 => Some(Instruction::DEC8(Target::B)),
            0x06 => Some(Instruction::LDIMM8(Target::B)),
            0x0a => Some(Instruction::LDRR(Target::BC, Target::A)),
            0x0b => Some(Instruction::DEC16(Target::BC)),
            0x0c => Some(Instruction::INC8(Target::C)),
            0x0d => Some(Instruction::DEC8(Target::C)),
            0x0e => Some(Instruction::LDIMM8(Target::C)),
            0x11 => Some(Instruction::LDIMM16(Target::DE)),
            0x12 => Some(Instruction::LDRR(Target::A, Target::DE)),
            0x13 => Some(Instruction::INC16(Target::DE)),
            0x14 => Some(Instruction::INC8(Target::D)),
            0x15 => Some(Instruction::DEC8(Target::D)),
            0x16 => Some(Instruction::LDIMM8(Target::D)),
            0x18 => Some(Instruction::JR(Condition::Always)),
            0x1a => Some(Instruction::LDRR(Target::DE, Target::A)),
            0x1b => Some(Instruction::DEC16(Target::DE)),
            0x1c => Some(Instruction::INC8(Target::E)),
            0x1d => Some(Instruction::DEC8(Target::E)),
            0x1e => Some(Instruction::LDIMM8(Target::E)),
            0x20 => Some(Instruction::JR(Condition::NotZero)),
            0x21 => Some(Instruction::LDIMM16(Target::HL)),
            0x22 => Some(Instruction::LDRR(Target::A, Target::HLINC)),
            0x23 => Some(Instruction::INC16(Target::HL)),
            0x24 => Some(Instruction::INC8(Target::H)),
            0x25 => Some(Instruction::DEC8(Target::H)),
            0x26 => Some(Instruction::LDIMM8(Target::H)),
            0x28 => Some(Instruction::JR(Condition::Zero)),
            0x2a => Some(Instruction::LDRR(Target::HLINC, Target::A)),
            0x2b => Some(Instruction::DEC16(Target::HL)),
            0x2c => Some(Instruction::INC8(Target::L)),
            0x2d => Some(Instruction::DEC8(Target::L)),
            0x2e => Some(Instruction::LDIMM8(Target::L)),
            0x2f => Some(Instruction::CPL),
            0x30 => Some(Instruction::JR(Condition::NotCarry)),
            0x31 => Some(Instruction::LDIMM16(Target::SP)),
            0x32 => Some(Instruction::LDRR(Target::A, Target::HLDEC)),
            0x33 => Some(Instruction::INC16(Target::SP)),
            0x34 => Some(Instruction::INC8(Target::HL)),
            0x35 => Some(Instruction::DEC8(Target::HL)),
            0x36 => Some(Instruction::LDIMM8(Target::HL)),
            0x38 => Some(Instruction::JR(Condition::Carry)),
            0x3a => Some(Instruction::LDRR(Target::HLDEC, Target::A)),
            0x3b => Some(Instruction::DEC16(Target::SP)),
            0x3c => Some(Instruction::INC8(Target::A)),
            0x3d => Some(Instruction::DEC8(Target::A)),
            0x3e => Some(Instruction::LDIMM8(Target::A)),
            0x3f => Some(Instruction::CCF),
            0x40 => Some(Instruction::LDRR(Target::B, Target::B)),
            0x41 => Some(Instruction::LDRR(Target::C, Target::B)),
            0x42 => Some(Instruction::LDRR(Target::D, Target::B)),
            0x43 => Some(Instruction::LDRR(Target::E, Target::B)),
            0x44 => Some(Instruction::LDRR(Target::H, Target::B)),
            0x45 => Some(Instruction::LDRR(Target::L, Target::B)),
            0x46 => Some(Instruction::LDRR(Target::HL, Target::B)),
            0x47 => Some(Instruction::LDRR(Target::A, Target::B)),
            0x48 => Some(Instruction::LDRR(Target::B, Target::C)),
            0x49 => Some(Instruction::LDRR(Target::C, Target::C)),
            0x4a => Some(Instruction::LDRR(Target::D, Target::C)),
            0x4b => Some(Instruction::LDRR(Target::E, Target::C)),
            0x4c => Some(Instruction::LDRR(Target::H, Target::C)),
            0x4d => Some(Instruction::LDRR(Target::L, Target::C)),
            0x4e => Some(Instruction::LDRR(Target::HL, Target::C)),
            0x4f => Some(Instruction::LDRR(Target::A, Target::C)),
            0x50 => Some(Instruction::LDRR(Target::B, Target::D)),
            0x51 => Some(Instruction::LDRR(Target::C, Target::D)),
            0x52 => Some(Instruction::LDRR(Target::D, Target::D)),
            0x53 => Some(Instruction::LDRR(Target::E, Target::D)),
            0x54 => Some(Instruction::LDRR(Target::H, Target::D)),
            0x55 => Some(Instruction::LDRR(Target::L, Target::D)),
            0x56 => Some(Instruction::LDRR(Target::HL, Target::D)),
            0x57 => Some(Instruction::LDRR(Target::A, Target::D)),
            0x58 => Some(Instruction::LDRR(Target::B, Target::E)),
            0x59 => Some(Instruction::LDRR(Target::C, Target::E)),
            0x5a => Some(Instruction::LDRR(Target::D, Target::E)),
            0x5b => Some(Instruction::LDRR(Target::E, Target::E)),
            0x5c => Some(Instruction::LDRR(Target::H, Target::E)),
            0x5d => Some(Instruction::LDRR(Target::L, Target::E)),
            0x5e => Some(Instruction::LDRR(Target::HL, Target::E)),
            0x5f => Some(Instruction::LDRR(Target::A, Target::E)),
            0x60 => Some(Instruction::LDRR(Target::B, Target::H)),
            0x61 => Some(Instruction::LDRR(Target::C, Target::H)),
            0x62 => Some(Instruction::LDRR(Target::D, Target::H)),
            0x63 => Some(Instruction::LDRR(Target::E, Target::H)),
            0x64 => Some(Instruction::LDRR(Target::H, Target::H)),
            0x65 => Some(Instruction::LDRR(Target::L, Target::H)),
            0x66 => Some(Instruction::LDRR(Target::HL, Target::H)),
            0x67 => Some(Instruction::LDRR(Target::A, Target::H)),
            0x68 => Some(Instruction::LDRR(Target::B, Target::L)),
            0x69 => Some(Instruction::LDRR(Target::C, Target::L)),
            0x6a => Some(Instruction::LDRR(Target::D, Target::L)),
            0x6b => Some(Instruction::LDRR(Target::E, Target::L)),
            0x6c => Some(Instruction::LDRR(Target::H, Target::L)),
            0x6d => Some(Instruction::LDRR(Target::L, Target::L)),
            0x6e => Some(Instruction::LDRR(Target::HL, Target::L)),
            0x6f => Some(Instruction::LDRR(Target::A, Target::L)),
            0x70 => Some(Instruction::LDRR(Target::B, Target::HL)),
            0x71 => Some(Instruction::LDRR(Target::C, Target::HL)),
            0x72 => Some(Instruction::LDRR(Target::D, Target::HL)),
            0x73 => Some(Instruction::LDRR(Target::E, Target::HL)),
            0x74 => Some(Instruction::LDRR(Target::H, Target::HL)),
            0x75 => Some(Instruction::LDRR(Target::L, Target::HL)),
            0x77 => Some(Instruction::LDRR(Target::A, Target::HL)),
            0x78 => Some(Instruction::LDRR(Target::B, Target::A)),
            0x79 => Some(Instruction::LDRR(Target::C, Target::A)),
            0x7a => Some(Instruction::LDRR(Target::D, Target::A)),
            0x7b => Some(Instruction::LDRR(Target::E, Target::A)),
            0x7c => Some(Instruction::LDRR(Target::H, Target::A)),
            0x7d => Some(Instruction::LDRR(Target::L, Target::A)),
            0x7e => Some(Instruction::LDRR(Target::HL, Target::A)),
            0x7f => Some(Instruction::LDRR(Target::A, Target::A)),
            0x80 => Some(Instruction::ADD(Target::B)),
            0x81 => Some(Instruction::ADD(Target::C)),
            0x82 => Some(Instruction::ADD(Target::D)),
            0x83 => Some(Instruction::ADD(Target::E)),
            0x84 => Some(Instruction::ADD(Target::H)),
            0x85 => Some(Instruction::ADD(Target::L)),
            0x86 => Some(Instruction::ADD(Target::HL)),
            0x87 => Some(Instruction::ADD(Target::A)),
            0x88 => Some(Instruction::ADC(Target::B)),
            0x89 => Some(Instruction::ADC(Target::C)),
            0x8a => Some(Instruction::ADC(Target::D)),
            0x8b => Some(Instruction::ADC(Target::E)),
            0x8c => Some(Instruction::ADC(Target::H)),
            0x8d => Some(Instruction::ADC(Target::L)),
            0x8e => Some(Instruction::ADC(Target::HL)),
            0x8f => Some(Instruction::ADC(Target::A)),
            0x90 => Some(Instruction::SUB(Target::B)),
            0x91 => Some(Instruction::SUB(Target::C)),
            0x92 => Some(Instruction::SUB(Target::D)),
            0x93 => Some(Instruction::SUB(Target::E)),
            0x94 => Some(Instruction::SUB(Target::H)),
            0x95 => Some(Instruction::SUB(Target::L)),
            0x96 => Some(Instruction::SUB(Target::HL)),
            0x97 => Some(Instruction::SUB(Target::A)),
            0x98 => Some(Instruction::SBC(Target::B)),
            0x99 => Some(Instruction::SBC(Target::C)),
            0x9a => Some(Instruction::SBC(Target::D)),
            0x9b => Some(Instruction::SBC(Target::E)),
            0x9c => Some(Instruction::SBC(Target::H)),
            0x9d => Some(Instruction::SBC(Target::L)),
            0x9e => Some(Instruction::SBC(Target::HL)),
            0x9f => Some(Instruction::SBC(Target::A)),
            0xa0 => Some(Instruction::AND(Target::B)),
            0xa1 => Some(Instruction::AND(Target::C)),
            0xa2 => Some(Instruction::AND(Target::D)),
            0xa3 => Some(Instruction::AND(Target::E)),
            0xa4 => Some(Instruction::AND(Target::H)),
            0xa5 => Some(Instruction::AND(Target::L)),
            0xa6 => Some(Instruction::AND(Target::HL)),
            0xa7 => Some(Instruction::AND(Target::A)),
            0xa8 => Some(Instruction::XOR(Target::B)),
            0xa9 => Some(Instruction::XOR(Target::C)),
            0xaa => Some(Instruction::XOR(Target::D)),
            0xab => Some(Instruction::XOR(Target::E)),
            0xac => Some(Instruction::XOR(Target::H)),
            0xad => Some(Instruction::XOR(Target::L)),
            0xae => Some(Instruction::XOR(Target::HL)),
            0xaf => Some(Instruction::XOR(Target::A)),
            0xb0 => Some(Instruction::OR(Target::B)),
            0xb1 => Some(Instruction::OR(Target::C)),
            0xb2 => Some(Instruction::OR(Target::D)),
            0xb3 => Some(Instruction::OR(Target::E)),
            0xb4 => Some(Instruction::OR(Target::H)),
            0xb5 => Some(Instruction::OR(Target::L)),
            0xb6 => Some(Instruction::OR(Target::HL)),
            0xb7 => Some(Instruction::OR(Target::A)),
            0xb8 => Some(Instruction::CMP(Target::B)),
            0xb9 => Some(Instruction::CMP(Target::C)),
            0xba => Some(Instruction::CMP(Target::D)),
            0xbb => Some(Instruction::CMP(Target::E)),
            0xbc => Some(Instruction::CMP(Target::H)),
            0xbd => Some(Instruction::CMP(Target::L)),
            0xbe => Some(Instruction::CMP(Target::HL)),
            0xbf => Some(Instruction::CMP(Target::A)),
            0xc0 => Some(Instruction::RET(Condition::NotZero)),
            0xc1 => Some(Instruction::POP(Target::BC)),
            0xc2 => Some(Instruction::JP(Condition::NotZero)),
            0xc3 => Some(Instruction::JP(Condition::Always)),
            0xc4 => Some(Instruction::CALL(Condition::NotZero)),
            0xc5 => Some(Instruction::PUSH(Target::BC)),
            0xc6 => Some(Instruction::ADD(Target::D8)),
            0xc7 => Some(Instruction::RST(0x00)),
            0xc8 => Some(Instruction::RET(Condition::Zero)),
            0xc9 => Some(Instruction::RET(Condition::Always)),
            0xca => Some(Instruction::JP(Condition::Zero)),
            0xcc => Some(Instruction::CALL(Condition::Zero)),
            0xcd => Some(Instruction::CALL(Condition::Always)),
            0xce => Some(Instruction::ADC(Target::D8)),
            0xcf => Some(Instruction::RST(0x08)),
            0xd0 => Some(Instruction::RET(Condition::NotCarry)),
            0xd1 => Some(Instruction::POP(Target::DE)),
            0xd2 => Some(Instruction::JP(Condition::NotCarry)),
            0xd4 => Some(Instruction::CALL(Condition::NotCarry)),
            0xd5 => Some(Instruction::PUSH(Target::DE)),
            0xd6 => Some(Instruction::SUB(Target::D8)),
            0xd7 => Some(Instruction::RST(0x10)),
            0xd8 => Some(Instruction::RET(Condition::Carry)),
            0xda => Some(Instruction::JP(Condition::Carry)),
            0xdc => Some(Instruction::CALL(Condition::Carry)),
            0xde => Some(Instruction::SBC(Target::D8)),
            0xdf => Some(Instruction::RST(0x18)),
            0xe0 => Some(Instruction::LD8A),
            0xe1 => Some(Instruction::POP(Target::HL)),
            0xe2 => Some(Instruction::LDCA),
            0xe5 => Some(Instruction::PUSH(Target::HL)),
            0xe6 => Some(Instruction::AND(Target::D8)),
            0xe7 => Some(Instruction::RST(0x20)),
            0xea => Some(Instruction::LD16A),
            0xee => Some(Instruction::XOR(Target::D8)),
            0xef => Some(Instruction::RST(0x28)),
            0xf0 => Some(Instruction::LDA8),
            0xf1 => Some(Instruction::POP(Target::AF)),
            0xf2 => Some(Instruction::LDAC),
            0xf3 => Some(Instruction::DI),
            0xf5 => Some(Instruction::PUSH(Target::AF)),
            0xf6 => Some(Instruction::OR(Target::D8)),
            0xf7 => Some(Instruction::RST(0x30)),
            0xfa => Some(Instruction::LDA16),
            0xfb => Some(Instruction::EI),
            0xfe => Some(Instruction::CMP(Target::D8)),
            0xff => Some(Instruction::RST(0x38)),
            _ => None,
        }
    }

    /// Length in bytes, opcode and operands together.
    pub fn len(&self) -> (r: u16)
        ensures
            r == inst_len(*self),
    {
        match self {
            Instruction::JP(_) | Instruction::CALL(_) | Instruction::LDIMM16(_) => 3,
            Instruction::LD16A | Instruction::LDA16 => 3,
            Instruction::LDIMM8(_) | Instruction::LD8A | Instruction::LDA8 | Instruction::JR(_) => 2,
            Instruction::ADD(t) | Instruction::ADC(t) | Instruction::SUB(t) | Instruction::SBC(t)
            | Instruction::AND(t) | Instruction::XOR(t) | Instruction::OR(t) | Instruction::CMP(t) => {
                if *t == Target::D8 {
                    2
                } else {
                    1
                }
            },
            _ => 1,
        }
    }

    /// Base cycle cost; for a conditional jump, call or return, the cost when
    /// the branch is not taken.
    pub fn clock(&self) -> (r: u64)
        ensures
            r == inst_clock(*self),
    {
        match self {
            Instruction::JP(_) | Instruction::CALL(_) | Instruction::LDIMM16(_) => 12,
            Instruction::LD16A | Instruction::LDA16 | Instruction::PUSH(_) | Instruction::RST(_) => 16,
            Instruction::LD8A | Instruction::LDA8 | Instruction::POP(_) => 12,
            Instruction::LDCA | Instruction::LDAC | Instruction::JR(_) => 8,
            Instruction::INC16(_) | Instruction::DEC16(_) => 8,
            Instruction::RET(c) => {
                if *c == Condition::Always {
                    16
                } else {
                    8
                }
            },
            Instruction::LDIMM8(t) => {
                if *t == Target::HL {
                    12
                } else {
                    8
                }
            },
            Instruction::INC8(t) | Instruction::DEC8(t) => {
                if *t == Target::HL {
                    12
                } else {
                    4
                }
            },
            Instruction::LDRR(s, t) => {
                if is_register(*s) && is_register(*t) {
                    4
                } else {
                    8
                }
            },
            Instruction::ADD(t) | Instruction::ADC(t) | Instruction::SUB(t) | Instruction::SBC(t)
            | Instruction::AND(t) | Instruction::XOR(t) | Instruction::OR(t) | Instruction::CMP(t) => {
                if *t == Target::HL || *t == Target::D8 {
                    8
                } else {
                    4
                }
            },
            _ => 4,
        }
    }
}

/// Whether an 8-bit selector names a register rather than a memory cell or
/// an immediate.
pub open spec fn is_reg8(t: Target) -> bool {
    t == Target::A || t == Target::B || t == Target::C || t == Target::D || t == Target::E
        || t == Target::H || t == Target::L
}

fn is_register(t: Target) -> (r: bool)
    ensures
        r == is_reg8(t),
{
    match t {
        Target::A | Target::B | Target::C | Target::D | Target::E | Target::H | Target::L => true,
        _ => false,
    }
}

pub open spec fn is_alu(i: Instruction) -> bool {
    match i {
        Instruction::ADD(_) | Instruction::ADC(_) | Instruction::SUB(_) | Instruction::SBC(_)
        | Instruction::AND(_) | Instruction::XOR(_) | Instruction::OR(_) | Instruction::CMP(_) => true,
        _ => false,
    }
}

/// The operand selector of an accumulator arithmetic or logic instruction.
pub open spec fn alu_operand(i: Instruction) -> Target {
    match i {
        Instruction::ADD(t) | Instruction::ADC(t) | Instruction::SUB(t) | Instruction::SBC(t)
        | Instruction::AND(t) | Instruction::XOR(t) | Instruction::OR(t) | Instruction::CMP(t) => t,
        _ => Target::A,
    }
}

pub open spec fn inst_len(i: Instruction) -> u16 {
    match i {
        Instruction::JP(_) | Instruction::CALL(_) | Instruction::LDIMM16(_) | Instruction::LD16A
        | Instruction::LDA16 => 3,
        Instruction::LDIMM8(_) | Instruction::LD8A | Instruction::LDA8 | Instruction::JR(_) => 2,
        _ => if is_alu(i) && alu_operand(i) == Target::D8 {
            2
        } else {
            1
        },
    }
}

pub open spec fn inst_clock(i: Instruction) -> u64 {
    match i {
        Instruction::JP(_) | Instruction::CALL(_) | Instruction::LDIMM16(_) => 12,
        Instruction::LD16A | Instruction::LDA16 | Instruction::PUSH(_) | Instruction::RST(_) => 16,
        Instruction::LD8A | Instruction::LDA8 | Instruction::POP(_) => 12,
        Instruction::LDCA | Instruction::LDAC | Instruction::JR(_) => 8,
        Instruction::INC16(_) | Instruction::DEC16(_) => 8,
        Instruction::RET(c) => if c == Condition::Always {
            16
        } else {
            8
        },
        Instruction::LDIMM8(t) => if t == Target::HL {
            12
        } else {
            8
        },
        Instruction::INC8(t) | Instruction::DEC8(t) => if t == Target::HL {
            12
        } else {
            4
        },
        Instruction::LDRR(s, t) => if is_reg8(s) && is_reg8(t) {
            4
        } else {
            8
        },
        _ => if is_alu(i) && (alu_operand(i) == Target::HL || alu_operand(i) == Target::D8) {
            8
        } else {
            4
        },
    }
}

/// The operand of an extended instruction.
pub open spec fn cb_operand(i: CBInstruction) -> Target {
    match i {
        CBInstruction::RLC(t) | CBInstruction::RRC(t) | CBInstruction::RL(t) | CBInstruction::RR(t)
        | CBInstruction::SLA(t) | CBInstruction::SRA(t) | CBInstruction::SWAP(t)
        | CBInstruction::SRL(t) => t,
        CBInstruction::BIT(t, _) | CBInstruction::RES(t, _) | CBInstruction::SET(t, _) => t,
    }
}

pub open spec fn cb_clock(i: CBInstruction) -> u64 {
    if cb_operand(i) == Target::HL {
        if i is BIT {
            12
        } else {
            16
        }
    } else {
        8
    }
}

fn reg_target(i: u8) -> (t: Target)
    requires
        i < 8,
    ensures
        t == reg_field(i as int),
{
    match i {
        0 => Target::B,
        1 => Target::C,
        2 => Target::D,
        3 => Target::E,
        4 => Target::H,
        5 => Target::L,
        6 => Target::HL,
        _ => Target::A,
    }
}

impl CBInstruction {
    /// Decodes the byte that follows the prefix; every byte has a meaning.
    pub fn from_byte(byte: u8) -> (r: CBInstruction)
        ensures
            r == decode_cb(byte),
    {
        let t = reg_target(byte % 8);
        let op = byte / 8;
        match op {
            0 => CBInstruction::RLC(t),
            1 => CBInstruction::RRC(t),
            2 => CBInstruction::RL(t),
            3 => CBInstruction::RR(t),
            4 => CBInstruction::SLA(t),
            5 => CBInstruction::SRA(t),
            6 => CBInstruction::SWAP(t),
            7 => CBInstruction::SRL(t),
            _ => {
                if op < 16 {
                    CBInstruction::BIT(t, op - 8)
                } else if op < 24 {
                    CBInstruction::RES(t, op - 16)
                } else {
                    CBInstruction::SET(t, op - 24)
                }
            },
        }
    }

    /// Every extended instruction is the prefix and one opcode byte.
    pub fn len(&self) -> (r: u16)
        ensures
            r == 2,
    {
        2
    }

    pub fn clock(&self) -> (r: u64)
        ensures
            r == cb_clock(*self),
    {
        match self {
            CBInstruction::BIT(t, _) => {
                if *t == Target::HL {
                    12
                } else {
                    8
                }
            },
            CBInstruction::RLC(t) | CBInstruction::RRC(t) | CBInstruction::RL(t) | CBInstruction::RR(t)
            | CBInstruction::SLA(t) | CBInstruction::SRA(t) | CBInstruction::SWAP(t)
            | CBInstruction::SRL(t) | CBInstruction::RES(t, _) | CBInstruction::SET(t, _) => {
                if *t == Target::HL {
                    16
                } else {
                    8
                }
            },
        }
    }
}

} // verus!
