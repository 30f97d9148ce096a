use gbcore::alu::{alu_add, alu_dec, alu_inc, alu_sub, rl, rlc, rr, rrc, sla, sra, srl, swap};
use gbcore::cpu::Cpu;
use gbcore::error::EmuError;
use gbcore::instruction::{CBInstruction, Condition, Instruction, Target};
use gbcore::registers::{Flags, Registers};

/// A fixed-ROM image with `program` at `at`.
fn image_with(at: usize, program: &[u8]) -> Vec<u8> {
    let mut img = vec![0u8; 0x8000];
    img[at..at + program.len()].copy_from_slice(program);
    img
}

fn cpu_with(at: usize, program: &[u8]) -> Cpu {
    let mut cpu = Cpu::new(image_with(at, program)).unwrap();
    cpu.pc = at as u16;
    cpu
}

fn flags(zero: bool, subtract: bool, half_carry: bool, carry: bool) -> Flags {
    Flags { zero, subtract, half_carry, carry }
}

#[test]
fn new_cpu_state() {
    let cpu = Cpu::new(vec![0u8; 0x8000]).unwrap();
    assert_eq!(cpu.pc, 0x0100);
    assert_eq!(cpu.sp(), 0);
    assert_eq!(cpu.registers(), Registers::new());
    let mut bad = vec![0u8; 0x8000];
    bad[0x147] = 0x03;
    assert!(matches!(Cpu::new(bad), Err(EmuError::UnsupportedCartridgeType)));
}

#[test]
fn add_flags() {
    assert_eq!(alu_add(0x0f, 0x01, false), (0x10, flags(false, false, true, false)));
    assert_eq!(alu_add(0xff, 0x01, false), (0x00, flags(true, false, true, true)));
    assert_eq!(alu_add(0x0e, 0x01, true), (0x10, flags(false, false, true, false)));
    assert_eq!(alu_add(0x80, 0x80, false), (0x00, flags(true, false, false, true)));
}

#[test]
fn add_through_step() {
    let mut cpu = cpu_with(0x100, &[0x80, 0x80]);
    let mut r = cpu.registers();
    r.a = 0x0f;
    r.b = 0x01;
    cpu.set_registers(r);
    assert_eq!(cpu.step(), Ok(4));
    assert_eq!(cpu.registers().a, 0x10);
    assert_eq!(cpu.registers().f, flags(false, false, true, false));
    let mut r = cpu.registers();
    r.a = 0xff;
    cpu.set_registers(r);
    assert_eq!(cpu.step(), Ok(4));
    assert_eq!(cpu.registers().a, 0x00);
    assert_eq!(cpu.registers().f, flags(true, false, true, true));
    assert_eq!(cpu.pc, 0x102);
}

#[test]
fn sub_flags() {
    assert_eq!(alu_sub(0x10, 0x01, false), (0x0f, flags(false, true, true, false)));
    assert_eq!(alu_sub(0x00, 0x01, false), (0xff, flags(false, true, true, true)));
    assert_eq!(alu_sub(0x05, 0x05, false), (0x00, flags(true, true, false, false)));
    assert_eq!(alu_sub(0x05, 0x04, true), (0x00, flags(true, true, false, false)));
    let mut cpu = cpu_with(0x100, &[0x90]);
    let mut r = cpu.registers();
    r.a = 0x10;
    r.b = 0x01;
    cpu.set_registers(r);
    assert_eq!(cpu.step(), Ok(4));
    assert_eq!(cpu.registers().a, 0x0f);
    assert_eq!(cpu.registers().f, flags(false, true, true, false));
}

#[test]
fn compare_keeps_accumulator() {
    let mut cpu = cpu_with(0x100, &[0xfe, 0x20]);
    let mut r = cpu.registers();
    r.a = 0x10;
    cpu.set_registers(r);
    assert_eq!(cpu.step(), Ok(8));
    assert_eq!(cpu.registers().a, 0x10);
    assert_eq!(cpu.registers().f, flags(false, true, false, true));
    assert_eq!(cpu.pc, 0x102);
}

#[test]
fn logic_flags() {
    let mut cpu = cpu_with(0x100, &[0xa0, 0xa8, 0xb0]);
    let mut r = cpu.registers();
    r.a = 0b1100;
    r.b = 0b1010;
    cpu.set_registers(r);
    assert_eq!(cpu.step(), Ok(4));
    assert_eq!(cpu.registers().a, 0b1000);
    assert_eq!(cpu.registers().f, flags(false, false, true, false));
    assert_eq!(cpu.step(), Ok(4));
    assert_eq!(cpu.registers().a, 0b0010);
    assert_eq!(cpu.registers().f, flags(false, false, false, false));
    assert_eq!(cpu.step(), Ok(4));
    assert_eq!(cpu.registers().a, 0b1010);
    let mut cpu = cpu_with(0x100, &[0xaf]);
    let mut r = cpu.registers();
    r.a = 0x5a;
    r.f = flags(false, true, true, true);
    cpu.set_registers(r);
    assert_eq!(cpu.step(), Ok(4));
    assert_eq!(cpu.registers().a, 0);
    assert_eq!(cpu.registers().f, flags(true, false, false, false));
}

#[test]
fn adc_and_sbc_use_carry() {
    let mut cpu = cpu_with(0x100, &[0x88, 0x98]);
    let mut r = cpu.registers();
    r.a = 0x0e;
    r.b = 0x01;
    r.f = flags(false, false, false, true);
    cpu.set_registers(r);
    assert_eq!(cpu.step(), Ok(4));
    assert_eq!(cpu.registers().a, 0x10);
    assert_eq!(cpu.registers().f, flags(false, false, true, false));
    let mut r = cpu.registers();
    r.f.carry = true;
    cpu.set_registers(r);
    assert_eq!(cpu.step(), Ok(4));
    assert_eq!(cpu.registers().a, 0x0e);
    assert_eq!(cpu.registers().f, flags(false, true, true, false));
}

#[test]
fn inc8_flags() {
    assert_eq!(alu_inc(0x0f, flags(false, true, false, false)), (0x10, flags(false, false, true, false)));
    assert_eq!(alu_inc(0xff, flags(false, false, false, true)), (0x00, flags(true, false, true, true)));
    assert_eq!(alu_inc(0xff, flags(false, false, false, false)), (0x00, flags(true, false, true, false)));
    assert_eq!(alu_dec(0x10, flags(false, false, false, true)), (0x0f, flags(false, true, true, true)));
    assert_eq!(alu_dec(0x01, flags(false, false, false, false)), (0x00, flags(true, true, false, false)));
}

#[test]
fn inc8_through_step() {
    let mut cpu = cpu_with(0x100, &[0x04, 0x04]);
    let mut r = cpu.registers();
    r.b = 0x0f;
    r.f.carry = true;
    cpu.set_registers(r);
    assert_eq!(cpu.step(), Ok(4));
    assert_eq!(cpu.registers().b, 0x10);
    assert_eq!(cpu.registers().f, flags(false, false, true, true));
    let mut r = cpu.registers();
    r.b = 0xff;
    r.f.carry = false;
    cpu.set_registers(r);
    assert_eq!(cpu.step(), Ok(4));
    assert_eq!(cpu.registers().b, 0x00);
    assert_eq!(cpu.registers().f, flags(true, false, true, false));
}

#[test]
fn inc8_on_memory() {
    let mut cpu = cpu_with(0x100, &[0x34, 0x34]);
    let mut r = cpu.registers();
    r.h = 0xc0;
    r.l = 0x00;
    cpu.set_registers(r);
    assert_eq!(cpu.step(), Ok(12));
    assert_eq!(cpu.load(0xc000, gbcore::cpu::DataSize::Byte), Ok(1));
    // HL on read-only cartridge memory: the step fails and changes nothing
    let mut r = cpu.registers();
    r.h = 0x00;
    r.l = 0x10;
    cpu.set_registers(r);
    let before = cpu.registers();
    assert_eq!(cpu.step(), Err(EmuError::PermissionDenied));
    assert_eq!(cpu.registers(), before);
    assert_eq!(cpu.pc, 0x101);
}

#[test]
fn inc16_dec16_wrap() {
    let mut cpu = cpu_with(0x100, &[0x03, 0x0b, 0x0b, 0x33]);
    let mut r = cpu.registers();
    r.b = 0xff;
    r.c = 0xff;
    r.f = flags(true, true, true, true);
    cpu.set_registers(r);
    assert_eq!(cpu.step(), Ok(8));
    assert_eq!(cpu.registers().get_bc(), 0x0000);
    assert_eq!(cpu.step(), Ok(8));
    assert_eq!(cpu.registers().get_bc(), 0xffff);
    assert_eq!(cpu.step(), Ok(8));
    assert_eq!(cpu.registers().get_bc(), 0xfffe);
    cpu.set_sp(0xffff);
    assert_eq!(cpu.step(), Ok(8));
    assert_eq!(cpu.sp(), 0x0000);
    assert_eq!(cpu.registers().f, flags(true, true, true, true));
}

#[test]
fn jr_backwards_to_itself() {
    let mut cpu = cpu_with(0x150, &[0x18, 0xfe]);
    assert_eq!(cpu.step(), Ok(12));
    assert_eq!(cpu.pc, 0x0150);
}

#[test]
fn jr_wraps_at_zero() {
    let mut cpu = cpu_with(0x0001, &[0x18, 0xfd]);
    assert_eq!(cpu.step(), Ok(12));
    assert_eq!(cpu.pc, 0x0000);
    let mut cpu = cpu_with(0x0000, &[0x18, 0x80]);
    assert_eq!(cpu.step(), Ok(12));
    assert_eq!(cpu.pc, 0xff82);
}

#[test]
fn jr_conditional() {
    let mut cpu = cpu_with(0x100, &[0x20, 0x10, 0x28, 0x10]);
    let mut r = cpu.registers();
    r.f.zero = true;
    cpu.set_registers(r);
    assert_eq!(cpu.step(), Ok(8));
    assert_eq!(cpu.pc, 0x102);
    assert_eq!(cpu.step(), Ok(12));
    assert_eq!(cpu.pc, 0x114);
}

#[test]
fn push_pop_round_trip() {
    let mut cpu = cpu_with(0x100, &[0xc5, 0xd1]);
    cpu.set_sp(0xfffe);
    let mut r = cpu.registers();
    r.set_bc(0x1234);
    cpu.set_registers(r);
    assert_eq!(cpu.step(), Ok(16));
    assert_eq!(cpu.sp(), 0xfffc);
    assert_eq!(cpu.step(), Ok(12));
    assert_eq!(cpu.registers().get_de(), 0x1234);
    assert_eq!(cpu.sp(), 0xfffe);
}

#[test]
fn push_at_zero_stack_uses_top_of_memory() {
    let mut cpu = cpu_with(0x100, &[0xc5, 0xe1]);
    let mut r = cpu.registers();
    r.set_bc(0xabcd);
    cpu.set_registers(r);
    assert_eq!(cpu.step(), Ok(16));
    assert_eq!(cpu.sp(), 0xfffe);
    assert_eq!(cpu.load(0xfffe, gbcore::cpu::DataSize::Byte), Ok(0xcd));
    assert_eq!(cpu.load(0xffff, gbcore::cpu::DataSize::Byte), Ok(0xab));
    assert_eq!(cpu.step(), Ok(12));
    assert_eq!(cpu.registers().get_hl(), 0xabcd);
    assert_eq!(cpu.sp(), 0x0000);
}

#[test]
fn push_onto_cartridge_fails() {
    let mut cpu = cpu_with(0x100, &[0xc5]);
    cpu.set_sp(0x0200);
    assert_eq!(cpu.step(), Err(EmuError::PermissionDenied));
    assert_eq!(cpu.sp(), 0x0200);
    assert_eq!(cpu.pc(), 0x100);
}

#[test]
fn call_and_return() {
    let mut program = vec![0u8; 0x200];
    program[0x00] = 0xcd;
    program[0x01] = 0x00;
    program[0x02] = 0x02;
    program[0x100] = 0xc9;
    let mut cpu = cpu_with(0x100, &program);
    cpu.set_sp(0xfffe);
    assert_eq!(cpu.step(), Ok(24));
    assert_eq!(cpu.pc, 0x0200);
    assert_eq!(cpu.sp(), 0xfffc);
    assert_eq!(cpu.load(0xfffc, gbcore::cpu::DataSize::Word), Ok(0x0103));
    assert_eq!(cpu.step(), Ok(16));
    assert_eq!(cpu.pc, 0x0103);
    assert_eq!(cpu.sp(), 0xfffe);
}

#[test]
fn conditional_call_not_taken() {
    let mut cpu = cpu_with(0x100, &[0xdc, 0x00, 0x02, 0xd8]);
    assert_eq!(cpu.step(), Ok(12));
    assert_eq!(cpu.pc, 0x103);
    assert_eq!(cpu.step(), Ok(8));
    assert_eq!(cpu.pc, 0x104);
}

#[test]
fn restart_pushes_next_address() {
    let mut cpu = cpu_with(0x120, &[0xef]);
    cpu.set_sp(0xd000);
    assert_eq!(cpu.step(), Ok(16));
    assert_eq!(cpu.pc, 0x0028);
    assert_eq!(cpu.sp(), 0xcffe);
    assert_eq!(cpu.load(0xcffe, gbcore::cpu::DataSize::Word), Ok(0x0121));
}

#[test]
fn restart_then_return() {
    let mut program = vec![0u8; 0x200];
    program[0x28] = 0xc9;
    program[0x120] = 0xef;
    let mut cpu = cpu_with(0, &program);
    cpu.set_pc(0x120);
    cpu.set_sp(0xd000);
    assert_eq!(cpu.step(), Ok(16));
    assert_eq!(cpu.pc(), 0x0028);
    assert_eq!(cpu.step(), Ok(16));
    assert_eq!(cpu.pc(), 0x0121);
    assert_eq!(cpu.sp(), 0xd000);
}

#[test]
fn conditional_return_taken() {
    let mut cpu = cpu_with(0x100, &[0xc8]);
    cpu.set_sp(0xc000);
    let mut r = cpu.registers();
    r.f.zero = true;
    r.set_hl(0x4321);
    cpu.set_registers(r);
    assert_eq!(cpu.execute(Instruction::PUSH(Target::HL)), Ok((1, 16)));
    assert_eq!(cpu.step(), Ok(20));
    assert_eq!(cpu.pc(), 0x4321);
    assert_eq!(cpu.sp(), 0xc000);
}

#[test]
fn jump_absolute() {
    let mut cpu = cpu_with(0x100, &[0xc3, 0x34, 0x12]);
    assert_eq!(cpu.step(), Ok(16));
    assert_eq!(cpu.pc, 0x1234);
    assert_eq!(cpu.fetch(), Ok(0x0000));
}

#[test]
fn loads_and_stores() {
    let mut cpu = cpu_with(
        0x100,
        &[0x21, 0x00, 0xc0, 0x3e, 0x77, 0x22, 0x32, 0x2a, 0x47, 0xea, 0x00, 0xd0, 0xfa, 0x00, 0xd0, 0xe0, 0x80, 0xf0, 0x80],
    );
    assert_eq!(cpu.step(), Ok(12)); // LD HL, 0xC000
    assert_eq!(cpu.registers().get_hl(), 0xc000);
    assert_eq!(cpu.step(), Ok(8)); // LD A, 0x77
    assert_eq!(cpu.registers().a, 0x77);
    assert_eq!(cpu.step(), Ok(8)); // LD (HL+), A
    assert_eq!(cpu.registers().get_hl(), 0xc001);
    assert_eq!(cpu.step(), Ok(8)); // LD (HL-), A
    assert_eq!(cpu.registers().get_hl(), 0xc000);
    assert_eq!(cpu.load(0xc001, gbcore::cpu::DataSize::Byte), Ok(0x77));
    let mut r = cpu.registers();
    r.a = 0;
    cpu.set_registers(r);
    assert_eq!(cpu.step(), Ok(8)); // LD A, (HL+)
    assert_eq!(cpu.registers().a, 0x77);
    assert_eq!(cpu.registers().get_hl(), 0xc001);
    assert_eq!(cpu.step(), Ok(4)); // LD B, A
    assert_eq!(cpu.registers().b, 0x77);
    assert_eq!(cpu.step(), Ok(16)); // LD (0xD000), A
    assert_eq!(cpu.load(0xd000, gbcore::cpu::DataSize::Byte), Ok(0x77));
    let mut r = cpu.registers();
    r.a = 0;
    cpu.set_registers(r);
    assert_eq!(cpu.step(), Ok(16)); // LD A, (0xD000)
    assert_eq!(cpu.registers().a, 0x77);
    assert_eq!(cpu.step(), Ok(12)); // LDH (0x80), A
    assert_eq!(cpu.load(0xff80, gbcore::cpu::DataSize::Byte), Ok(0x77));
    let mut r = cpu.registers();
    r.a = 0;
    cpu.set_registers(r);
    assert_eq!(cpu.step(), Ok(12)); // LDH A, (0x80)
    assert_eq!(cpu.registers().a, 0x77);
}

#[test]
fn load_through_c() {
    let mut cpu = cpu_with(0x100, &[0xe2, 0xf2]);
    let mut r = cpu.registers();
    r.a = 0x3c;
    r.c = 0x90;
    cpu.set_registers(r);
    assert_eq!(cpu.step(), Ok(8));
    assert_eq!(cpu.load(0xff90, gbcore::cpu::DataSize::Byte), Ok(0x3c));
    let mut r = cpu.registers();
    r.a = 0;
    cpu.set_registers(r);
    assert_eq!(cpu.step(), Ok(8));
    assert_eq!(cpu.registers().a, 0x3c);
}

#[test]
fn cpl_and_ccf() {
    let mut cpu = cpu_with(0x100, &[0x2f, 0x3f, 0x3f]);
    let mut r = cpu.registers();
    r.a = 0x35;
    cpu.set_registers(r);
    assert_eq!(cpu.step(), Ok(4));
    assert_eq!(cpu.registers().a, 0xca);
    assert_eq!(cpu.registers().f, flags(false, true, true, false));
    assert_eq!(cpu.step(), Ok(4));
    assert_eq!(cpu.registers().f, flags(false, false, false, true));
    assert_eq!(cpu.step(), Ok(4));
    assert_eq!(cpu.registers().f, flags(false, false, false, false));
}

#[test]
fn rotates_and_shifts() {
    assert_eq!(rlc(0x85), (0x0b, true));
    assert_eq!(rrc(0x01), (0x80, true));
    assert_eq!(rl(0x80, false), (0x00, true));
    assert_eq!(rl(0x11, true), (0x23, false));
    assert_eq!(rr(0x01, false), (0x00, true));
    assert_eq!(rr(0x10, true), (0x88, false));
    assert_eq!(sla(0xff), (0xfe, true));
    assert_eq!(sra(0x8a), (0xc5, false));
    assert_eq!(sra(0x01), (0x00, true));
    assert_eq!(swap(0xf1), (0x1f, false));
    assert_eq!(srl(0x81), (0x40, true));
}

#[test]
fn extended_through_step() {
    let mut cpu = cpu_with(0x100, &[0xcb, 0x11, 0xcb, 0x37, 0xcb, 0x7f, 0xcb, 0xbf, 0xcb, 0xc0]);
    let mut r = cpu.registers();
    r.c = 0x80;
    r.a = 0xf1;
    r.f = flags(false, true, true, false);
    cpu.set_registers(r);
    assert_eq!(cpu.step(), Ok(8)); // RL C
    assert_eq!(cpu.registers().c, 0x00);
    assert_eq!(cpu.registers().f, flags(true, false, false, true));
    assert_eq!(cpu.pc, 0x102);
    assert_eq!(cpu.step(), Ok(8)); // SWAP A
    assert_eq!(cpu.registers().a, 0x1f);
    assert_eq!(cpu.registers().f, flags(false, false, false, false));
    let mut r = cpu.registers();
    r.f.carry = true;
    cpu.set_registers(r);
    assert_eq!(cpu.step(), Ok(8)); // BIT 7, A
    assert_eq!(cpu.registers().f, flags(true, false, true, true));
    assert_eq!(cpu.registers().a, 0x1f);
    let mut r = cpu.registers();
    r.a = 0xff;
    cpu.set_registers(r);
    assert_eq!(cpu.step(), Ok(8)); // RES 7, A
    assert_eq!(cpu.registers().a, 0x7f);
    assert_eq!(cpu.registers().f, flags(true, false, true, true));
    assert_eq!(cpu.step(), Ok(8)); // SET 0, B
    assert_eq!(cpu.registers().b, 0x01);
    assert_eq!(cpu.pc, 0x10a);
}

#[test]
fn invalid_operands() {
    let mut cpu = cpu_with(0x100, &[0x00]);
    assert_eq!(cpu.execute(Instruction::LDRR(Target::SP, Target::A)), Err(EmuError::InvalidOperand));
    assert_eq!(cpu.execute(Instruction::LDRR(Target::HL, Target::HL)), Err(EmuError::InvalidOperand));
    assert_eq!(cpu.execute(Instruction::PUSH(Target::SP)), Err(EmuError::InvalidOperand));
    assert_eq!(cpu.execute(Instruction::INC16(Target::A)), Err(EmuError::InvalidOperand));
    assert_eq!(cpu.execute(Instruction::ADD(Target::BC)), Err(EmuError::InvalidOperand));
    assert_eq!(cpu.execute_cb(CBInstruction::BIT(Target::B, 8)), Err(EmuError::InvalidOperand));
    assert_eq!(cpu.execute_cb(CBInstruction::SWAP(Target::D8)), Err(EmuError::InvalidOperand));
    assert_eq!(cpu.execute(Instruction::JP(Condition::NotZero)), Ok((0, 16)));
}

#[test]
fn unknown_opcode() {
    let mut cpu = cpu_with(0x100, &[0xd3]);
    assert_eq!(cpu.step(), Err(EmuError::UnknownOpcode));
    assert_eq!(cpu.pc, 0x100);
}

#[test]
fn unmapped_fetch() {
    let mut cpu = Cpu::new(vec![0u8; 0x200]).unwrap();
    cpu.pc = 0x300;
    assert_eq!(cpu.step(), Err(EmuError::UnmappedAddress));
}

#[test]
fn pair_accessors() {
    let mut r = Registers::new();
    r.set_af(0x12f0);
    assert_eq!(r.a, 0x12);
    assert_eq!(r.f, flags(true, true, true, true));
    assert_eq!(r.get_af(), 0x12f0);
    r.set_af(0x34a5);
    assert_eq!(r.f, flags(true, false, true, false));
    assert_eq!(r.get_af(), 0x34a0);
    r.set_hl(0xbeef);
    assert_eq!((r.h, r.l), (0xbe, 0xef));
    let hl = r.get_hl();
    r.set_hl(hl);
    assert_eq!(r.get_hl(), 0xbeef);
    r.set_de(0x0102);
    assert_eq!((r.d, r.e), (0x01, 0x02));
    assert_eq!(Flags::from_byte(0x50), flags(false, true, false, true));
    assert_eq!(flags(true, false, false, true).to_byte(), 0x90);
}
