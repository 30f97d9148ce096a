use gbcore::instruction::{CBInstruction, Condition, Instruction, Target};

#[test]
fn decode_primary_samples() {
    assert_eq!(Instruction::from_byte(0x00), Some(Instruction::NOP));
    assert_eq!(Instruction::from_byte(0x41), Some(Instruction::LDRR(Target::C, Target::B)));
    assert_eq!(Instruction::from_byte(0x7e), Some(Instruction::LDRR(Target::HL, Target::A)));
    assert_eq!(Instruction::from_byte(0x70), Some(Instruction::LDRR(Target::B, Target::HL)));
    assert_eq!(Instruction::from_byte(0x02), Some(Instruction::LDRR(Target::A, Target::BC)));
    assert_eq!(Instruction::from_byte(0x2a), Some(Instruction::LDRR(Target::HLINC, Target::A)));
    assert_eq!(Instruction::from_byte(0x3a), Some(Instruction::LDRR(Target::HLDEC, Target::A)));
    assert_eq!(Instruction::from_byte(0x31), Some(Instruction::LDIMM16(Target::SP)));
    assert_eq!(Instruction::from_byte(0x36), Some(Instruction::LDIMM8(Target::HL)));
    assert_eq!(Instruction::from_byte(0xc3), Some(Instruction::JP(Condition::Always)));
    assert_eq!(Instruction::from_byte(0xda), Some(Instruction::JP(Condition::Carry)));
    assert_eq!(Instruction::from_byte(0xcd), Some(Instruction::CALL(Condition::Always)));
    assert_eq!(Instruction::from_byte(0xc4), Some(Instruction::CALL(Condition::NotZero)));
    assert_eq!(Instruction::from_byte(0xc9), Some(Instruction::RET(Condition::Always)));
    assert_eq!(Instruction::from_byte(0xd8), Some(Instruction::RET(Condition::Carry)));
    assert_eq!(Instruction::from_byte(0x18), Some(Instruction::JR(Condition::Always)));
    assert_eq!(Instruction::from_byte(0x20), Some(Instruction::JR(Condition::NotZero)));
    assert_eq!(Instruction::from_byte(0xf5), Some(Instruction::PUSH(Target::AF)));
    assert_eq!(Instruction::from_byte(0xd1), Some(Instruction::POP(Target::DE)));
    assert_eq!(Instruction::from_byte(0x0b), Some(Instruction::DEC16(Target::BC)));
    assert_eq!(Instruction::from_byte(0x33), Some(Instruction::INC16(Target::SP)));
    assert_eq!(Instruction::from_byte(0x34), Some(Instruction::INC8(Target::HL)));
    assert_eq!(Instruction::from_byte(0x3d), Some(Instruction::DEC8(Target::A)));
    assert_eq!(Instruction::from_byte(0x8e), Some(Instruction::ADC(Target::HL)));
    assert_eq!(Instruction::from_byte(0x97), Some(Instruction::SUB(Target::A)));
    assert_eq!(Instruction::from_byte(0xfe), Some(Instruction::CMP(Target::D8)));
    assert_eq!(Instruction::from_byte(0xe6), Some(Instruction::AND(Target::D8)));
    assert_eq!(Instruction::from_byte(0xff), Some(Instruction::RST(0x38)));
    assert_eq!(Instruction::from_byte(0xc7), Some(Instruction::RST(0x00)));
    assert_eq!(Instruction::from_byte(0xe0), Some(Instruction::LD8A));
    assert_eq!(Instruction::from_byte(0xf0), Some(Instruction::LDA8));
    assert_eq!(Instruction::from_byte(0xe2), Some(Instruction::LDCA));
    assert_eq!(Instruction::from_byte(0xf2), Some(Instruction::LDAC));
    assert_eq!(Instruction::from_byte(0xea), Some(Instruction::LD16A));
    assert_eq!(Instruction::from_byte(0xfa), Some(Instruction::LDA16));
    assert_eq!(Instruction::from_byte(0xf3), Some(Instruction::DI));
    assert_eq!(Instruction::from_byte(0xfb), Some(Instruction::EI));
    assert_eq!(Instruction::from_byte(0x2f), Some(Instruction::CPL));
    assert_eq!(Instruction::from_byte(0x3f), Some(Instruction::CCF));
}

#[test]
fn decode_primary_unmodelled() {
    for b in [0x76u8, 0xcb, 0xd3, 0xdb, 0xdd, 0xe3, 0xe4, 0xeb, 0xec, 0xed, 0xf4, 0xfc, 0xfd, 0x08, 0x10, 0x27, 0x37, 0x07, 0x09, 0xd9, 0xe9, 0xe8] {
        assert_eq!(Instruction::from_byte(b), None, "opcode {:#x}", b);
    }
    let decoded = (0..=255u8).filter(|b| Instruction::from_byte(*b).is_some()).count();
    assert_eq!(decoded, 226);
}

#[test]
fn primary_length_and_cost() {
    let cases: [(u8, u16, u64); 18] = [
        (0x00, 1, 4),
        (0x01, 3, 12),
        (0x06, 2, 8),
        (0x36, 2, 12),
        (0x41, 1, 4),
        (0x46, 1, 8),
        (0x0a, 1, 8),
        (0x34, 1, 12),
        (0x3c, 1, 4),
        (0x86, 1, 8),
        (0xc6, 2, 8),
        (0xc3, 3, 12),
        (0xcd, 3, 12),
        (0xc9, 1, 16),
        (0xc0, 1, 8),
        (0x18, 2, 8),
        (0xc5, 1, 16),
        (0xea, 3, 16),
    ];
    for (b, len, clock) in cases {
        let inst = Instruction::from_byte(b).unwrap();
        assert_eq!(inst.len(), len, "length of {:#x}", b);
        assert_eq!(inst.clock(), clock, "cost of {:#x}", b);
    }
}

#[test]
fn decode_extended_table() {
    assert_eq!(CBInstruction::from_byte(0x00), CBInstruction::RLC(Target::B));
    assert_eq!(CBInstruction::from_byte(0x0e), CBInstruction::RRC(Target::HL));
    assert_eq!(CBInstruction::from_byte(0x11), CBInstruction::RL(Target::C));
    assert_eq!(CBInstruction::from_byte(0x1f), CBInstruction::RR(Target::A));
    assert_eq!(CBInstruction::from_byte(0x22), CBInstruction::SLA(Target::D));
    assert_eq!(CBInstruction::from_byte(0x2b), CBInstruction::SRA(Target::E));
    assert_eq!(CBInstruction::from_byte(0x37), CBInstruction::SWAP(Target::A));
    assert_eq!(CBInstruction::from_byte(0x3c), CBInstruction::SRL(Target::H));
    assert_eq!(CBInstruction::from_byte(0x40), CBInstruction::BIT(Target::B, 0));
    assert_eq!(CBInstruction::from_byte(0x7e), CBInstruction::BIT(Target::HL, 7));
    assert_eq!(CBInstruction::from_byte(0x86), CBInstruction::RES(Target::HL, 0));
    assert_eq!(CBInstruction::from_byte(0xbd), CBInstruction::RES(Target::L, 7));
    assert_eq!(CBInstruction::from_byte(0xc7), CBInstruction::SET(Target::A, 0));
    assert_eq!(CBInstruction::from_byte(0xff), CBInstruction::SET(Target::A, 7));
    for b in 0..=255u8 {
        assert_eq!(CBInstruction::from_byte(b).len(), 2);
    }
    assert_eq!(CBInstruction::from_byte(0x00).clock(), 8);
    assert_eq!(CBInstruction::from_byte(0x06).clock(), 16);
    assert_eq!(CBInstruction::from_byte(0x46).clock(), 12);
    assert_eq!(CBInstruction::from_byte(0xc6).clock(), 16);
}
