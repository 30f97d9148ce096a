use vstd::prelude::*;
use crate::alu::{
    add8, alu_add, alu_dec, alu_inc, alu_sub, bit_set, dec8, inc8, logic_flags, res8, rl, rl8, rlc,
    rlc8, rr, rr8, rrc, rrc8, set8, shift_flags, sla, sla8, sra, sra8, srl, srl8, sub8, swap, swap8,
};
use crate::bus::{in_region, lemma_store_then_load, bus_of, bus_load, bus_load16, bus_store, bus_store16, bus_store16_result, bus_store_result, bus_wf, next_addr, Bus, DeviceView};
use crate::cartridge::cartridge_result;
use crate::error::EmuError;
use crate::instruction::{
    alu_operand, cb_clock, cb_operand, decode, decode_cb, inst_clock, inst_len, is_reg8,
    CBInstruction, Condition, Instruction, Target,
};
use crate::registers::{zeroed, Flags, Registers};

verus! {

/// Where execution starts.
pub const ENTRY_POINT: u16 = 0x0100;
/// The byte that introduces an extended instruction.
pub const CB_PREFIX: u8 = 0xcb;
/// Base of the page that the short-address loads and stores reach.
pub const HIGH_PAGE: u16 = 0xff00;

/// Model of the processor: registers, stack pointer, program counter and
/// the devices on its bus.
pub struct CpuView {
    pub regs: Registers,
    pub sp: u16,
    pub pc: u16,
    pub bus: Seq<DeviceView>,
}

/// Wrapping to 16 bits.
pub open spec fn wrap16(v: int) -> u16 {
    (v % 0x10000) as u16
}

/// An offset byte read as a signed value.
pub open spec fn signed8(o: u8) -> int {
    if o < 128 {
        o as int
    } else {
        o - 256
    }
}

pub open spec fn condition_holds(f: Flags, c: Condition) -> bool {
    match c {
        Condition::NotZero => !f.zero,
        Condition::Zero => f.zero,
        Condition::NotCarry => !f.carry,
        Condition::Carry => f.carry,
        Condition::Always => true,
    }
}

pub open spec fn reg8(r: Registers, t: Target) -> u8 {
    match t {
        Target::A => r.a,
        Target::B => r.b,
        Target::C => r.c,
        Target::D => r.d,
        Target::E => r.e,
        Target::H => r.h,
        _ => r.l,
    }
}

pub open spec fn with_reg8(r: Registers, t: Target, v: u8) -> Registers {
    match t {
        Target::A => Registers { a: v, ..r },
        Target::B => Registers { b: v, ..r },
        Target::C => Registers { c: v, ..r },
        Target::D => Registers { d: v, ..r },
        Target::E => Registers { e: v, ..r },
        Target::H => Registers { h: v, ..r },
        _ => Registers { l: v, ..r },
    }
}

/// The pairs of 16-bit loads and arithmetic.
pub open spec fn is_wide(t: Target) -> bool {
    t == Target::BC || t == Target::DE || t == Target::HL || t == Target::SP
}

/// The pairs of PUSH and POP.
pub open spec fn is_stack_pair(t: Target) -> bool {
    t == Target::BC || t == Target::DE || t == Target::HL || t == Target::AF
}

pub open spec fn get16(s: CpuView, t: Target) -> u16 {
    match t {
        Target::BC => s.regs.bc(),
        Target::DE => s.regs.de(),
        Target::HL => s.regs.hl(),
        Target::AF => s.regs.af(),
        _ => s.sp,
    }
}

pub open spec fn set16(s: CpuView, t: Target, v: u16) -> CpuView {
    let hi = (v / 256) as u8;
    let lo = (v % 256) as u8;
    match t {
        Target::BC => CpuView { regs: Registers { b: hi, c: lo, ..s.regs }, ..s },
        Target::DE => CpuView { regs: Registers { d: hi, e: lo, ..s.regs }, ..s },
        Target::HL => CpuView { regs: Registers { h: hi, l: lo, ..s.regs }, ..s },
        Target::AF => CpuView {
            regs: Registers { a: hi, f: crate::registers::flags_of(lo), ..s.regs },
            ..s
        },
        _ => CpuView { sp: v, ..s },
    }
}

pub open spec fn with_flags(s: CpuView, f: Flags) -> CpuView {
    CpuView { regs: Registers { f, ..s.regs }, ..s }
}

pub open spec fn with_a(s: CpuView, a: u8) -> CpuView {
    CpuView { regs: Registers { a, ..s.regs }, ..s }
}

/// An 8-bit operand: a register, the cell that HL addresses, or the byte
/// after the opcode.
pub open spec fn read8(s: CpuView, t: Target) -> Result<u8, EmuError> {
    if is_reg8(t) {
        Ok(reg8(s.regs, t))
    } else if t == Target::HL {
        bus_load(s.bus, s.regs.hl() as int)
    } else if t == Target::D8 {
        bus_load(s.bus, next_addr(s.pc) as int)
    } else {
        Err(EmuError::InvalidOperand)
    }
}

pub open spec fn store8(s: CpuView, addr: u16, v: u8) -> Result<CpuView, EmuError> {
    match bus_store_result(s.bus, addr as int, v) {
        Ok(_) => Ok(CpuView { bus: bus_store(s.bus, addr as int, v), ..s }),
        Err(e) => Err(e),
    }
}

pub open spec fn store16(s: CpuView, addr: u16, v: u16) -> Result<CpuView, EmuError> {
    match bus_store16_result(s.bus, addr, v) {
        Ok(_) => Ok(CpuView { bus: bus_store16(s.bus, addr, v), ..s }),
        Err(e) => Err(e),
    }
}

/// Writes an 8-bit operand: a register or the cell that HL addresses.
pub open spec fn write8(s: CpuView, t: Target, v: u8) -> Result<CpuView, EmuError> {
    if is_reg8(t) {
        Ok(CpuView { regs: with_reg8(s.regs, t, v), ..s })
    } else if t == Target::HL {
        store8(s, s.regs.hl(), v)
    } else {
        Err(EmuError::InvalidOperand)
    }
}

pub open spec fn finish(r: Result<CpuView, EmuError>, len: u16, clock: u64) -> Result<(CpuView, u16, u64), EmuError> {
    match r {
        Ok(s) => Ok((s, len, clock)),
        Err(e) => Err(e),
    }
}

pub open spec fn is_reg_or_hl(t: Target) -> bool {
    is_reg8(t) || t == Target::HL
}

pub open spec fn is_indirect(t: Target) -> bool {
    t == Target::BC || t == Target::DE || t == Target::HLINC || t == Target::HLDEC
}

/// The operand pairs that a register-to-register load defines.
pub open spec fn valid_ld(src: Target, dst: Target) -> bool {
    (is_reg_or_hl(src) && is_reg_or_hl(dst) && !(src == Target::HL && dst == Target::HL)) || (src
        == Target::A && is_indirect(dst)) || (dst == Target::A && is_indirect(src))
}

/// The address of an indirect accumulator load or store.
pub open spec fn indirect_addr(r: Registers, t: Target) -> u16 {
    match t {
        Target::BC => r.bc(),
        Target::DE => r.de(),
        _ => r.hl(),
    }
}

/// HL after an access through HLINC or HLDEC.
pub open spec fn hl_after(s: CpuView, t: Target) -> CpuView {
    if t == Target::HLINC {
        set16(s, Target::HL, wrap16(s.regs.hl() + 1))
    } else if t == Target::HLDEC {
        set16(s, Target::HL, wrap16(s.regs.hl() - 1))
    } else {
        s
    }
}

pub open spec fn ld_spec(s: CpuView, src: Target, dst: Target) -> Result<CpuView, EmuError> {
    if !valid_ld(src, dst) {
        Err(EmuError::InvalidOperand)
    } else if is_indirect(dst) {
        match store8(s, indirect_addr(s.regs, dst), s.regs.a) {
            Ok(s2) => Ok(hl_after(s2, dst)),
            Err(e) => Err(e),
        }
    } else if is_indirect(src) {
        match bus_load(s.bus, indirect_addr(s.regs, src) as int) {
            Ok(v) => Ok(hl_after(with_a(s, v), src)),
            Err(e) => Err(e),
        }
    } else {
        match read8(s, src) {
            Ok(v) => write8(s, dst, v),
            Err(e) => Err(e),
        }
    }
}

/// The result and flags of an accumulator arithmetic or logic instruction.
pub open spec fn alu_result(i: Instruction, a: u8, v: u8, f: Flags) -> (u8, Flags) {
    match i {
        Instruction::ADD(_) => add8(a, v, false),
        Instruction::ADC(_) => add8(a, v, f.carry),
        Instruction::SUB(_) => sub8(a, v, false),
        Instruction::SBC(_) => sub8(a, v, f.carry),
        Instruction::AND(_) => (a & v, logic_flags(a & v, true)),
        Instruction::XOR(_) => (a ^ v, logic_flags(a ^ v, false)),
        Instruction::OR(_) => (a | v, logic_flags(a | v, false)),
        _ => (a, sub8(a, v, false).1),
    }
}

pub open spec fn jp_spec(s: CpuView, c: Condition) -> Result<(CpuView, u16, u64), EmuError> {
    if condition_holds(s.regs.f, c) {
        match bus_load16(s.bus, next_addr(s.pc)) {
            Ok(a) => Ok((CpuView { pc: a, ..s }, 0, 16)),
            Err(e) => Err(e),
        }
    } else {
        Ok((s, 3, 12))
    }
}

/// A taken call pushes the return address, the byte after its three-byte
/// encoding, and jumps.
pub open spec fn call_spec(s: CpuView, c: Condition) -> Result<(CpuView, u16, u64), EmuError> {
    if condition_holds(s.regs.f, c) {
        match bus_load16(s.bus, next_addr(s.pc)) {
            Ok(a) => match store16(s, wrap16(s.sp - 2), wrap16(s.pc + 3)) {
                Ok(s2) => Ok((CpuView { sp: wrap16(s.sp - 2), pc: a, ..s2 }, 0, 24)),
                Err(e) => Err(e),
            },
            Err(e) => Err(e),
        }
    } else {
        Ok((s, 3, 12))
    }
}

pub open spec fn ret_spec(s: CpuView, c: Condition) -> Result<(CpuView, u16, u64), EmuError> {
    if condition_holds(s.regs.f, c) {
        match bus_load16(s.bus, s.sp) {
            Ok(a) => Ok(
                (
                    CpuView { pc: a, sp: wrap16(s.sp + 2), ..s },
                    0,
                    if c == Condition::Always {
                        16
                    } else {
                        20
                    },
                ),
            ),
            Err(e) => Err(e),
        }
    } else {
        Ok((s, 1, 8))
    }
}

/// A taken relative jump adds the signed offset to the program counter;
/// the instruction's length is added after.
pub open spec fn jr_spec(s: CpuView, c: Condition) -> Result<(CpuView, u16, u64), EmuError> {
    if condition_holds(s.regs.f, c) {
        match bus_load(s.bus, next_addr(s.pc) as int) {
            Ok(o) => Ok((CpuView { pc: wrap16(s.pc + signed8(o)), ..s }, 2, 12)),
            Err(e) => Err(e),
        }
    } else {
        Ok((s, 2, 8))
    }
}

/// A restart pushes the address of the byte after the opcode and jumps.
pub open spec fn rst_spec(s: CpuView, addr: u16) -> Result<(CpuView, u16, u64), EmuError> {
    match store16(s, wrap16(s.sp - 2), wrap16(s.pc + 1)) {
        Ok(s2) => Ok((CpuView { sp: wrap16(s.sp - 2), pc: addr, ..s2 }, 0, 16)),
        Err(e) => Err(e),
    }
}

/// PUSH stores the pair at SP - 2 (low byte) and SP - 1 (high byte), then
/// lowers SP by two.
pub open spec fn push_spec(s: CpuView, t: Target) -> Result<(CpuView, u16, u64), EmuError> {
    if is_stack_pair(t) {
        match store16(s, wrap16(s.sp - 2), get16(s, t)) {
            Ok(s2) => Ok((CpuView { sp: wrap16(s.sp - 2), ..s2 }, 1, 16)),
            Err(e) => Err(e),
        }
    } else {
        Err(EmuError::InvalidOperand)
    }
}

/// POP loads the pair from SP (low byte) and SP + 1 (high byte), then
/// raises SP by two.
pub open spec fn pop_spec(s: CpuView, t: Target) -> Result<(CpuView, u16, u64), EmuError> {
    match bus_load16(s.bus, s.sp) {
        Ok(v) => if is_stack_pair(t) {
            Ok((CpuView { sp: wrap16(s.sp + 2), ..set16(s, t, v) }, 1, 12))
        } else {
            Err(EmuError::InvalidOperand)
        },
        Err(e) => Err(e),
    }
}

pub open spec fn ldimm16_spec(s: CpuView, t: Target) -> Result<CpuView, EmuError> {
    match bus_load16(s.bus, next_addr(s.pc)) {
        Ok(v) => if is_wide(t) {
            Ok(set16(s, t, v))
        } else {
            Err(EmuError::InvalidOperand)
        },
        Err(e) => Err(e),
    }
}

/// A load into A from an address.
pub open spec fn load_a(s: CpuView, addr: int) -> Result<CpuView, EmuError> {
    match bus_load(s.bus, addr) {
        Ok(v) => Ok(with_a(s, v)),
        Err(e) => Err(e),
    }
}

/// The loads and stores of A through an immediate address or C.
pub open spec fn transfer_a_spec(s: CpuView, i: Instruction) -> Result<CpuView, EmuError> {
    let operand = next_addr(s.pc);
    match i {
        Instruction::LD16A => match bus_load16(s.bus, operand) {
            Ok(a) => store8(s, a, s.regs.a),
            Err(e) => Err(e),
        },
        Instruction::LDA16 => match bus_load16(s.bus, operand) {
            Ok(a) => load_a(s, a as int),
            Err(e) => Err(e),
        },
        Instruction::LD8A => match bus_load(s.bus, operand as int) {
            Ok(o) => store8(s, (HIGH_PAGE + o) as u16, s.regs.a),
            Err(e) => Err(e),
        },
        Instruction::LDA8 => match bus_load(s.bus, operand as int) {
            Ok(o) => load_a(s, HIGH_PAGE + o),
            Err(e) => Err(e),
        },
        Instruction::LDCA => store8(s, (HIGH_PAGE + s.regs.c) as u16, s.regs.a),
        _ => load_a(s, HIGH_PAGE + s.regs.c),
    }
}

pub open spec fn ldimm8_spec(s: CpuView, t: Target) -> Result<CpuView, EmuError> {
    match bus_load(s.bus, next_addr(s.pc) as int) {
        Ok(v) => write8(s, t, v),
        Err(e) => Err(e),
    }
}

/// INC16 and DEC16 wrap and leave the flags alone.
pub open spec fn step16_spec(s: CpuView, t: Target, up: bool) -> Result<CpuView, EmuError> {
    if is_wide(t) {
        Ok(set16(s, t, wrap16(get16(s, t) + if up { 1int } else { -1int })))
    } else {
        Err(EmuError::InvalidOperand)
    }
}

/// INC8 and DEC8 on any 8-bit operand.
pub open spec fn step8_spec(s: CpuView, t: Target, up: bool) -> Result<CpuView, EmuError> {
    match read8(s, t) {
        Ok(v) => {
            let (res, f) = if up {
                inc8(v, s.regs.f)
            } else {
                dec8(v, s.regs.f)
            };
            match write8(s, t, res) {
                Ok(s2) => Ok(with_flags(s2, f)),
                Err(e) => Err(e),
            }
        },
        Err(e) => Err(e),
    }
}

/// Arithmetic and logic on A.
pub open spec fn alu_spec(s: CpuView, i: Instruction) -> Result<CpuView, EmuError> {
    match read8(s, alu_operand(i)) {
        Ok(v) => {
            let (res, f) = alu_result(i, s.regs.a, v, s.regs.f);
            Ok(CpuView { regs: Registers { a: res, f, ..s.regs }, ..s })
        },
        Err(e) => Err(e),
    }
}

pub open spec fn cpl_spec(s: CpuView) -> CpuView {
    CpuView {
        regs: Registers {
            a: (255 - s.regs.a) as u8,
            f: Flags { subtract: true, half_carry: true, ..s.regs.f },
            ..s.regs
        },
        ..s
    }
}

pub open spec fn ccf_spec(s: CpuView) -> CpuView {
    with_flags(s, Flags { subtract: false, half_carry: false, carry: !s.regs.f.carry, ..s.regs.f })
}

/// What one primary instruction does, the program counter still at its
/// opcode: the state after it, the offset that the program counter then
/// advances by (0 where the instruction set it), and the cycles it took.
/// A failing instruction changes nothing.
#[verifier::opaque]
pub open spec fn execute_spec(s: CpuView, i: Instruction) -> Result<(CpuView, u16, u64), EmuError> {
    let len = inst_len(i);
    let clk = inst_clock(i);
    match i {
        Instruction::JP(c) => jp_spec(s, c),
        Instruction::CALL(c) => call_spec(s, c),
        Instruction::RET(c) => ret_spec(s, c),
        Instruction::JR(c) => jr_spec(s, c),
        Instruction::RST(addr) => rst_spec(s, addr),
        Instruction::PUSH(t) => push_spec(s, t),
        Instruction::POP(t) => pop_spec(s, t),
        Instruction::LDIMM16(t) => finish(ldimm16_spec(s, t), len, clk),
        Instruction::LD16A | Instruction::LDA16 | Instruction::LD8A | Instruction::LDA8
        | Instruction::LDCA | Instruction::LDAC => finish(transfer_a_spec(s, i), len, clk),
        Instruction::LDIMM8(t) => finish(ldimm8_spec(s, t), len, clk),
        Instruction::LDRR(src, dst) => finish(ld_spec(s, src, dst), len, clk),
        Instruction::INC16(t) => finish(step16_spec(s, t, true), len, clk),
        Instruction::DEC16(t) => finish(step16_spec(s, t, false), len, clk),
        Instruction::INC8(t) => finish(step8_spec(s, t, true), len, clk),
        Instruction::DEC8(t) => finish(step8_spec(s, t, false), len, clk),
        Instruction::CPL => Ok((cpl_spec(s), len, clk)),
        Instruction::CCF => Ok((ccf_spec(s), len, clk)),
        Instruction::NOP | Instruction::DI | Instruction::EI => Ok((s, len, clk)),
        _ => finish(alu_spec(s, i), len, clk),
    }
}

/// The result and carry of a rotate or shift.
pub open spec fn shift_result(i: CBInstruction, v: u8, carry: bool) -> (u8, bool) {
    match i {
        CBInstruction::RLC(_) => rlc8(v),
        CBInstruction::RRC(_) => rrc8(v),
        CBInstruction::RL(_) => rl8(v, carry),
        CBInstruction::RR(_) => rr8(v, carry),
        CBInstruction::SLA(_) => sla8(v),
        CBInstruction::SRA(_) => sra8(v),
        CBInstruction::SWAP(_) => swap8(v),
        _ => srl8(v),
    }
}

/// What one extended instruction does; the offset is always its length.
#[verifier::opaque]
pub open spec fn execute_cb_spec(s: CpuView, i: CBInstruction) -> Result<(CpuView, u16, u64), EmuError> {
    let t = cb_operand(i);
    let clk = cb_clock(i);
    if bad_bit_index(i) {
        Err(EmuError::InvalidOperand)
    } else {
        match read8(s, t) {
            Err(e) => Err(e),
            Ok(v) => match i {
                CBInstruction::BIT(_, n) => Ok(
                    (
                        with_flags(
                            s,
                            Flags {
                                zero: !bit_set(v, n),
                                subtract: false,
                                half_carry: true,
                                ..s.regs.f
                            },
                        ),
                        2,
                        clk,
                    ),
                ),
                CBInstruction::RES(_, n) => finish(write8(s, t, res8(v, n)), 2, clk),
                CBInstruction::SET(_, n) => finish(write8(s, t, set8(v, n)), 2, clk),
                _ => {
                    let (res, c) = shift_result(i, v, s.regs.f.carry);
                    match write8(s, t, res) {
                        Ok(s2) => Ok((with_flags(s2, shift_flags(res, c)), 2, clk)),
                        Err(e) => Err(e),
                    }
                },
            },
        }
    }
}

/// A bit instruction whose bit index is past bit 7.
pub open spec fn bad_bit_index(i: CBInstruction) -> bool {
    match i {
        CBInstruction::BIT(_, n) | CBInstruction::RES(_, n) | CBInstruction::SET(_, n) => n >= 8,
        _ => false,
    }
}

/// The program counter advanced by an instruction's offset.
pub open spec fn advance(s: CpuView, offset: u16) -> CpuView {
    CpuView { pc: wrap16(s.pc + offset), ..s }
}

/// One step: fetch the opcode at the program counter, decode it (through
/// the extended table after the prefix), execute it, advance the program
/// counter; the result is the cycle count.
pub open spec fn step_spec(s: CpuView) -> Result<(CpuView, u64), EmuError> {
    match bus_load(s.bus, s.pc as int) {
        Err(e) => Err(e),
        Ok(b) => if b == CB_PREFIX {
            match bus_load(s.bus, next_addr(s.pc) as int) {
                Err(e) => Err(e),
                Ok(b2) => match execute_cb_spec(s, decode_cb(b2)) {
                    Ok((s2, off, clk)) => Ok((advance(s2, off), clk)),
                    Err(e) => Err(e),
                },
            }
        } else {
            match decode(b) {
                None => Err(EmuError::UnknownOpcode),
                Some(i) => match execute_spec(s, i) {
                    Ok((s2, off, clk)) => Ok((advance(s2, off), clk)),
                    Err(e) => Err(e),
                },
            }
        },
    }
}

/// Whether both cells of the stack slot below `sp` (SP - 2 and SP - 1) are
/// memory.
pub open spec fn stack_in_memory(devs: Seq<DeviceView>, sp: u16) -> bool {
    in_region(devs, wrap16(sp - 2) as int) && in_region(devs, wrap16(sp - 1) as int)
}

/// Stack round trip: a push followed by a pop into BC, DE or HL leaves that
/// pair holding the pushed value and SP where it started. The stack cells
/// must be memory: a cartridge's control port takes a store that no load
/// reads back.
pub proof fn lemma_push_pop_round_trip(s: CpuView, pushed: Target, popped: Target)
    requires
        bus_wf(s.bus),
        is_stack_pair(pushed),
        popped == Target::BC || popped == Target::DE || popped == Target::HL,
        execute_spec(s, Instruction::PUSH(pushed)) is Ok,
        stack_in_memory(s.bus, s.sp),
    ensures
        match execute_spec(s, Instruction::PUSH(pushed)) {
            Ok((s1, _, _)) => match execute_spec(s1, Instruction::POP(popped)) {
                Ok((s2, _, _)) => get16(s2, popped) == get16(s, pushed) && s2.sp == s.sp,
                Err(_) => false,
            },
            Err(_) => false,
        },
{
    lemma_execute_stack(s, pushed, popped);
    let a1 = wrap16(s.sp - 2);
    let a2 = next_addr(a1);
    assert(a2 == wrap16(s.sp - 1));
    let v = get16(s, pushed);
    let lo = (v % 256) as u8;
    let hi = (v / 256) as u8;
    let d1 = bus_store(s.bus, a1 as int, lo);
    lemma_store_then_load(s.bus, a1 as int, lo, a1 as int, hi);
    lemma_store_then_load(s.bus, a1 as int, lo, a2 as int, hi);
    lemma_store_then_load(d1, a2 as int, hi, a1 as int, hi);
    lemma_store_then_load(d1, a2 as int, hi, a2 as int, hi);
    let s1 = CpuView { sp: wrap16(s.sp - 2), bus: bus_store(d1, a2 as int, hi), ..s };
    assert(push_spec(s, pushed) == Ok::<(CpuView, u16, u64), EmuError>((s1, 1, 16)));
    lemma_execute_stack(s1, pushed, popped);
    assert(s1.sp == a1);
    assert(bus_load(s1.bus, a1 as int) == Ok::<u8, EmuError>(lo));
    assert(bus_load(s1.bus, a2 as int) == Ok::<u8, EmuError>(hi));
    assert(bus_load16(s1.bus, a1) == Ok::<u16, EmuError>(v));
    crate::registers::lemma_pair_set_get(s1.regs, v);
}

/// PUSH and POP as the instruction model gives them.
proof fn lemma_execute_stack(s: CpuView, pushed: Target, popped: Target)
    ensures
        execute_spec(s, Instruction::PUSH(pushed)) == push_spec(s, pushed),
        execute_spec(s, Instruction::POP(popped)) == pop_spec(s, popped),
{
    reveal(execute_spec);
}

/// How an executed instruction's result and state meet its model: on
/// success the model's state, offset and cycles; on failure the model's
/// error and the state unchanged.
pub open spec fn meets(
    before: CpuView,
    after: CpuView,
    r: Result<(u16, u64), EmuError>,
    m: Result<(CpuView, u16, u64), EmuError>,
) -> bool {
    match m {
        Ok((s2, off, clk)) => r == Ok::<(u16, u64), EmuError>((off, clk)) && after == s2,
        Err(e) => r == Err::<(u16, u64), EmuError>(e) && after == before,
    }
}

/// Width of a bus access.
pub enum DataSize {
    Byte,
    Word,
}

/// The processor: register file, stack pointer, program counter and bus.
pub struct Cpu {
    regs: Registers,
    sp: u16,
    pub pc: u16,
    bus: Bus,
}

impl View for Cpu {
    type V = CpuView;

    closed spec fn view(&self) -> CpuView {
        CpuView { regs: self.regs, sp: self.sp, pc: self.pc, bus: self.bus@ }
    }
}

/// How a state change that yields no value meets its model.
pub open spec fn effect(
    before: CpuView,
    after: CpuView,
    r: Result<(), EmuError>,
    m: Result<CpuView, EmuError>,
) -> bool {
    match m {
        Ok(s2) => r is Ok && after == s2,
        Err(e) => r == Err::<(), EmuError>(e) && after == before,
    }
}

/// A byte load widened to 16 bits.
pub open spec fn widen(r: Result<u8, EmuError>) -> Result<u16, EmuError> {
    match r {
        Ok(v) => Ok(v as u16),
        Err(e) => Err(e),
    }
}

fn ld_operands_valid(src: Target, dst: Target) -> (r: bool)
    ensures
        r == valid_ld(src, dst),
{
    let src_r = match src {
        Target::A | Target::B | Target::C | Target::D | Target::E | Target::H | Target::L
        | Target::HL => true,
        _ => false,
    };
    let dst_r = match dst {
        Target::A | Target::B | Target::C | Target::D | Target::E | Target::H | Target::L
        | Target::HL => true,
        _ => false,
    };
    (src_r && dst_r && !(src == Target::HL && dst == Target::HL)) || (src == Target::A
        && indirect(dst)) || (dst == Target::A && indirect(src))
}

fn indirect(t: Target) -> (r: bool)
    ensures
        r == is_indirect(t),
{
    match t {
        Target::BC | Target::DE | Target::HLINC | Target::HLDEC => true,
        _ => false,
    }
}

impl Cpu {
    pub open spec fn wf(&self) -> bool {
        bus_wf(self@.bus)
    }

    /// A processor on a bus made from the image, at the entry point, with
    /// registers, flags and stack pointer zero.
    pub fn new(binary: Vec<u8>) -> (r: Result<Cpu, EmuError>)
        ensures
            match r {
                Ok(c) => c.wf() && (cartridge_result(0, binary@) matches Ok(cart) && c@ == (CpuView {
                    regs: zeroed(),
                    sp: 0,
                    pc: ENTRY_POINT,
                    bus: bus_of(cart),
                })),
                Err(e) => cartridge_result(0, binary@) == Err::<crate::cartridge::CartView, EmuError>(e),
            },
    {
        match Bus::new(binary) {
            Ok(bus) => Ok(Cpu { regs: Registers::new(), sp: 0, pc: ENTRY_POINT, bus }),
            Err(e) => Err(e),
        }
    }

    pub fn registers(&self) -> (r: Registers)
        ensures
            r == self@.regs,
    {
        self.regs
    }

    pub fn set_registers(&mut self, regs: Registers)
        ensures
            final(self)@ == (CpuView { regs, ..old(self)@ }),
    {
        self.regs = regs;
    }

    pub fn pc(&self) -> (r: u16)
        ensures
            r == self@.pc,
    {
        self.pc
    }

    pub fn set_pc(&mut self, pc: u16)
        ensures
            final(self)@ == (CpuView { pc, ..old(self)@ }),
    {
        self.pc = pc;
    }

    pub fn sp(&self) -> (r: u16)
        ensures
            r == self@.sp,
    {
        self.sp
    }

    pub fn set_sp(&mut self, sp: u16)
        ensures
            final(self)@ == (CpuView { sp, ..old(self)@ }),
    {
        self.sp = sp;
    }

    /// The word at the program counter.
    pub fn fetch(&self) -> (r: Result<u16, EmuError>)
        requires
            self.wf(),
        ensures
            r == bus_load16(self@.bus, self@.pc),
    {
        self.load(self.pc, DataSize::Word)
    }

    /// A byte or a little-endian word from the bus.
    pub fn load(&self, addr: u16, size: DataSize) -> (r: Result<u16, EmuError>)
        requires
            self.wf(),
        ensures
            r == match size {
                DataSize::Byte => widen(bus_load(self@.bus, addr as int)),
                DataSize::Word => bus_load16(self@.bus, addr),
            },
    {
        match size {
            DataSize::Byte => match self.bus.load8(addr) {
                Ok(v) => Ok(v as u16),
                Err(e) => Err(e),
            },
            DataSize::Word => self.bus.load16(addr),
        }
    }

    /// A byte (the low byte of `value`) or a little-endian word onto the bus.
    pub fn store(&mut self, addr: u16, size: DataSize, value: u16) -> (r: Result<(), EmuError>)
        requires
            old(self).wf(),
        ensures
            final(self).wf(),
            effect(
                old(self)@,
                final(self)@,
                r,
                match size {
                    DataSize::Byte => store8(old(self)@, addr, value as u8),
                    DataSize::Word => store16(old(self)@, addr, value),
                },
            ),
    {
        match size {
            DataSize::Byte => self.bus.store8(addr, value as u8),
            DataSize::Word => self.bus.store16(addr, value),
        }
    }

    fn get_r8(&self, target: Target) -> (r: Result<u8, EmuError>)
        requires
            self.wf(),
        ensures
            r == read8(self@, target),
    {
        match target {
            Target::A => Ok(self.regs.a),
            Target::B => Ok(self.regs.b),
            Target::C => Ok(self.regs.c),
            Target::D => Ok(self.regs.d),
            Target::E => Ok(self.regs.e),
            Target::H => Ok(self.regs.h),
            Target::L => Ok(self.regs.l),
            Target::HL => self.bus.load8(self.regs.get_hl()),
            Target::D8 => self.bus.load8(self.pc.wrapping_add(1)),
            _ => Err(EmuError::InvalidOperand),
        }
    }

    fn set_r8(&mut self, target: Target, value: u8) -> (r: Result<(), EmuError>)
        requires
            old(self).wf(),
        ensures
            final(self).wf(),
            effect(old(self)@, final(self)@, r, write8(old(self)@, target, value)),
    {
        match target {
            Target::A => self.regs.a = value,
            Target::B => self.regs.b = value,
            Target::C => self.regs.c = value,
            Target::D => self.regs.d = value,
            Target::E => self.regs.e = value,
            Target::H => self.regs.h = value,
            Target::L => self.regs.l = value,
            Target::HL => {
                let hl = self.regs.get_hl();
                return self.store(hl, DataSize::Byte, value as u16);
            },
            _ => return Err(EmuError::InvalidOperand),
        }
        Ok(())
    }

    fn check_condition(&self, condition: Condition) -> (r: bool)
        ensures
            r == condition_holds(self@.regs.f, condition),
    {
        match condition {
            Condition::NotZero => !self.regs.f.zero,
            Condition::Zero => self.regs.f.zero,
            Condition::NotCarry => !self.regs.f.carry,
            Condition::Carry => self.regs.f.carry,
            Condition::Always => true,
        }
    }

    fn adjust_hl(&mut self, t: Target)
        ensures
            final(self)@ == hl_after(old(self)@, t),
            final(self).bus == old(self).bus,
    {
        match t {
            Target::HLINC => {
                let hl = self.regs.get_hl().wrapping_add(1);
                self.regs.set_hl(hl);
            },
            Target::HLDEC => {
                let hl = self.regs.get_hl().wrapping_sub(1);
                self.regs.set_hl(hl);
            },
            _ => {},
        }
    }

    fn indirect_address(&self, t: Target) -> (r: u16)
        ensures
            r == indirect_addr(self@.regs, t),
    {
        match t {
            Target::BC => self.regs.get_bc(),
            Target::DE => self.regs.get_de(),
            _ => self.regs.get_hl(),
        }
    }

    /// A load between two operand selectors.
    fn load_between(&mut self, src: Target, dst: Target) -> (r: Result<(), EmuError>)
        requires
            old(self).wf(),
        ensures
            final(self).wf(),
            effect(old(self)@, final(self)@, r, ld_spec(old(self)@, src, dst)),
    {
        if !ld_operands_valid(src, dst) {
            return Err(EmuError::InvalidOperand);
        }
        if indirect(dst) {
            let addr = self.indirect_address(dst);
            match self.store(addr, DataSize::Byte, self.regs.a as u16) {
                Ok(_) => {},
                Err(e) => return Err(e),
            }
            self.adjust_hl(dst);
            Ok(())
        } else if indirect(src) {
            let addr = self.indirect_address(src);
            let v = match self.load(addr, DataSize::Byte) {
                Ok(v) => v as u8,
                Err(e) => return Err(e),
            };
            self.regs.a = v;
            self.adjust_hl(src);
            Ok(())
        } else {
            let v = match self.get_r8(src) {
                Ok(v) => v,
                Err(e) => return Err(e),
            };
            self.set_r8(dst, v)
        }
    }

    fn jump(&mut self, condition: Condition) -> (r: Result<(u16, u64), EmuError>)
        requires
            old(self).wf(),
        ensures
            final(self).wf(),
            meets(old(self)@, final(self)@, r, jp_spec(old(self)@, condition)),
    {
        if self.check_condition(condition) {
            let addr = match self.load(self.pc.wrapping_add(1), DataSize::Word) {
                Ok(v) => v,
                Err(e) => return Err(e),
            };
            self.pc = addr;
            Ok((0, 16))
        } else {
            Ok((3, 12))
        }
    }

    fn call(&mut self, condition: Condition) -> (r: Result<(u16, u64), EmuError>)
        requires
            old(self).wf(),
        ensures
            final(self).wf(),
            meets(old(self)@, final(self)@, r, call_spec(old(self)@, condition)),
    {
        if self.check_condition(condition) {
            let addr = match self.load(self.pc.wrapping_add(1), DataSize::Word) {
                Ok(v) => v,
                Err(e) => return Err(e),
            };
            let ret = self.pc.wrapping_add(3);
            match self.store(self.sp.wrapping_sub(2), DataSize::Word, ret) {
                Ok(_) => {},
                Err(e) => return Err(e),
            }
            self.sp = self.sp.wrapping_sub(2);
            self.pc = addr;
            Ok((0, 24))
        } else {
            Ok((3, 12))
        }
    }

    fn ret(&mut self, condition: Condition) -> (r: Result<(u16, u64), EmuError>)
        requires
            old(self).wf(),
        ensures
            final(self).wf(),
            meets(old(self)@, final(self)@, r, ret_spec(old(self)@, condition)),
    {
        if self.check_condition(condition) {
            let addr = match self.load(self.sp, DataSize::Word) {
                Ok(v) => v,
                Err(e) => return Err(e),
            };
            self.pc = addr;
            self.sp = self.sp.wrapping_add(2);
            let taken: u64 = if condition == Condition::Always {
                16
            } else {
                20
            };
            Ok((0, taken))
        } else {
            Ok((1, 8))
        }
    }

    fn jump_relative(&mut self, condition: Condition) -> (r: Result<(u16, u64), EmuError>)
        requires
            old(self).wf(),
        ensures
            final(self).wf(),
            meets(old(self)@, final(self)@, r, jr_spec(old(self)@, condition)),
    {
        if self.check_condition(condition) {
            let offset = match self.load(self.pc.wrapping_add(1), DataSize::Byte) {
                Ok(v) => v as u8,
                Err(e) => return Err(e),
            };
            self.pc = if offset < 128 {
                self.pc.wrapping_add(offset as u16)
            } else {
                self.pc.wrapping_sub(256 - offset as u16)
            };
            Ok((2, 12))
        } else {
            Ok((2, 8))
        }
    }

    fn restart(&mut self, addr: u16) -> (r: Result<(u16, u64), EmuError>)
        requires
            old(self).wf(),
        ensures
            final(self).wf(),
            meets(old(self)@, final(self)@, r, rst_spec(old(self)@, addr)),
    {
        let ret = self.pc.wrapping_add(1);
        match self.store(self.sp.wrapping_sub(2), DataSize::Word, ret) {
            Ok(_) => {},
            Err(e) => return Err(e),
        }
        self.sp = self.sp.wrapping_sub(2);
        self.pc = addr;
        Ok((0, 16))
    }

    fn push(&mut self, target: Target) -> (r: Result<(u16, u64), EmuError>)
        requires
            old(self).wf(),
        ensures
            final(self).wf(),
            meets(old(self)@, final(self)@, r, push_spec(old(self)@, target)),
    {
        let value = match target {
            Target::BC => self.regs.get_bc(),
            Target::DE => self.regs.get_de(),
            Target::HL => self.regs.get_hl(),
            Target::AF => self.regs.get_af(),
            _ => return Err(EmuError::InvalidOperand),
        };
        match self.store(self.sp.wrapping_sub(2), DataSize::Word, value) {
            Ok(_) => {},
            Err(e) => return Err(e),
        }
        self.sp = self.sp.wrapping_sub(2);
        Ok((1, 16))
    }

    fn pop(&mut self, target: Target) -> (r: Result<(u16, u64), EmuError>)
        requires
            old(self).wf(),
        ensures
            final(self).wf(),
            meets(old(self)@, final(self)@, r, pop_spec(old(self)@, target)),
    {
        let value = match self.load(self.sp, DataSize::Word) {
            Ok(v) => v,
            Err(e) => return Err(e),
        };
        match target {
            Target::BC => self.regs.set_bc(value),
            Target::DE => self.regs.set_de(value),
            Target::HL => self.regs.set_hl(value),
            Target::AF => self.regs.set_af(value),
            _ => return Err(EmuError::InvalidOperand),
        }
        self.sp = self.sp.wrapping_add(2);
        Ok((1, 12))
    }

    fn load_imm16(&mut self, target: Target) -> (r: Result<(), EmuError>)
        requires
            old(self).wf(),
        ensures
            final(self).wf(),
            effect(old(self)@, final(self)@, r, ldimm16_spec(old(self)@, target)),
    {
        let imm = match self.load(self.pc.wrapping_add(1), DataSize::Word) {
            Ok(v) => v,
            Err(e) => return Err(e),
        };
        match target {
            Target::BC => self.regs.set_bc(imm),
            Target::DE => self.regs.set_de(imm),
            Target::HL => self.regs.set_hl(imm),
            Target::SP => self.sp = imm,
            _ => return Err(EmuError::InvalidOperand),
        }
        Ok(())
    }

    fn load_imm8(&mut self, target: Target) -> (r: Result<(), EmuError>)
        requires
            old(self).wf(),
        ensures
            final(self).wf(),
            effect(old(self)@, final(self)@, r, ldimm8_spec(old(self)@, target)),
    {
        let imm = match self.load(self.pc.wrapping_add(1), DataSize::Byte) {
            Ok(v) => v as u8,
            Err(e) => return Err(e),
        };
        self.set_r8(target, imm)
    }

    fn load_a_from(&mut self, addr: u16) -> (r: Result<(), EmuError>)
        requires
            old(self).wf(),
        ensures
            final(self).wf(),
            effect(old(self)@, final(self)@, r, load_a(old(self)@, addr as int)),
    {
        match self.load(addr, DataSize::Byte) {
            Ok(v) => {
                self.regs.a = v as u8;
                Ok(())
            },
            Err(e) => Err(e),
        }
    }

    /// The loads and stores of A through an immediate address or C.
    fn transfer_a(&mut self, inst: Instruction) -> (r: Result<(), EmuError>)
        requires
            old(self).wf(),
        ensures
            final(self).wf(),
            effect(old(self)@, final(self)@, r, transfer_a_spec(old(self)@, inst)),
    {
        let operand = self.pc.wrapping_add(1);
        let a = self.regs.a as u16;
        match inst {
            Instruction::LD16A => match self.load(operand, DataSize::Word) {
                Ok(addr) => self.store(addr, DataSize::Byte, a),
                Err(e) => Err(e),
            },
            Instruction::LDA16 => match self.load(operand, DataSize::Word) {
                Ok(addr) => self.load_a_from(addr),
                Err(e) => Err(e),
            },
            Instruction::LD8A => match self.load(operand, DataSize::Byte) {
                Ok(o) => self.store(HIGH_PAGE + o, DataSize::Byte, a),
                Err(e) => Err(e),
            },
            Instruction::LDA8 => match self.load(operand, DataSize::Byte) {
                Ok(o) => self.load_a_from(HIGH_PAGE + o),
                Err(e) => Err(e),
            },
            Instruction::LDCA => self.store(HIGH_PAGE + self.regs.c as u16, DataSize::Byte, a),
            _ => self.load_a_from(HIGH_PAGE + self.regs.c as u16),
        }
    }

    fn step16(&mut self, target: Target, up: bool) -> (r: Result<(), EmuError>)
        ensures
            final(self).bus == old(self).bus,
            effect(old(self)@, final(self)@, r, step16_spec(old(self)@, target, up)),
    {
        match target {
            Target::BC => {
                let v = self.regs.get_bc();
                self.regs.set_bc(if up { v.wrapping_add(1) } else { v.wrapping_sub(1) });
            },
            Target::DE => {
                let v = self.regs.get_de();
                self.regs.set_de(if up { v.wrapping_add(1) } else { v.wrapping_sub(1) });
            },
            Target::HL => {
                let v = self.regs.get_hl();
                self.regs.set_hl(if up { v.wrapping_add(1) } else { v.wrapping_sub(1) });
            },
            Target::SP => {
                self.sp = if up {
                    self.sp.wrapping_add(1)
                } else {
                    self.sp.wrapping_sub(1)
                };
            },
            _ => return Err(EmuError::InvalidOperand),
        }
        Ok(())
    }

    fn step8(&mut self, target: Target, up: bool) -> (r: Result<(), EmuError>)
        requires
            old(self).wf(),
        ensures
            final(self).wf(),
            effect(old(self)@, final(self)@, r, step8_spec(old(self)@, target, up)),
    {
        let v = match self.get_r8(target) {
            Ok(v) => v,
            Err(e) => return Err(e),
        };
        let (res, f) = if up {
            alu_inc(v, self.regs.f)
        } else {
            alu_dec(v, self.regs.f)
        };
        match self.set_r8(target, res) {
            Ok(_) => {},
            Err(e) => return Err(e),
        }
        self.regs.f = f;
        Ok(())
    }

    /// Arithmetic and logic on A.
    fn arith(&mut self, inst: Instruction) -> (r: Result<(), EmuError>)
        requires
            old(self).wf(),
        ensures
            final(self).wf(),
            effect(old(self)@, final(self)@, r, alu_spec(old(self)@, inst)),
    {
        let target = match inst {
            Instruction::ADD(t) | Instruction::ADC(t) | Instruction::SUB(t) | Instruction::SBC(t)
            | Instruction::AND(t) | Instruction::XOR(t) | Instruction::OR(t) | Instruction::CMP(t) => t,
            _ => Target::A,
        };
        let v = match self.get_r8(target) {
            Ok(v) => v,
            Err(e) => return Err(e),
        };
        let a = self.regs.a;
        let carry = self.regs.f.carry;
        let (res, f) = match inst {
            Instruction::ADD(_) => alu_add(a, v, false),
            Instruction::ADC(_) => alu_add(a, v, carry),
            Instruction::SUB(_) => alu_sub(a, v, false),
            Instruction::SBC(_) => alu_sub(a, v, carry),
            Instruction::AND(_) => {
                let r = a & v;
                (r, Flags { zero: r == 0, subtract: false, half_carry: true, carry: false })
            },
            Instruction::XOR(_) => {
                let r = a ^ v;
                (r, Flags { zero: r == 0, subtract: false, half_carry: false, carry: false })
            },
            Instruction::OR(_) => {
                let r = a | v;
                (r, Flags { zero: r == 0, subtract: false, half_carry: false, carry: false })
            },
            _ => {
                let (_, f) = alu_sub(a, v, false);
                (a, f)
            },
        };
        self.regs.a = res;
        self.regs.f = f;
        Ok(())
    }

    /// Executes a primary instruction, the program counter at its opcode.
    /// Returns the offset to advance the program counter by (0 where the
    /// instruction set it) and the cycles taken; a failing instruction
    /// changes nothing.
    pub fn execute(&mut self, inst: Instruction) -> (r: Result<(u16, u64), EmuError>)
        requires
            old(self).wf(),
        ensures
            final(self).wf(),
            meets(old(self)@, final(self)@, r, execute_spec(old(self)@, inst)),
    {
        proof {
            reveal(execute_spec);
        }
        let len = inst.len();
        let clock = inst.clock();
        let done = match inst {
            Instruction::JP(c) => return self.jump(c),
            Instruction::CALL(c) => return self.call(c),
            Instruction::RET(c) => return self.ret(c),
            Instruction::JR(c) => return self.jump_relative(c),
            Instruction::RST(addr) => return self.restart(addr),
            Instruction::PUSH(t) => return self.push(t),
            Instruction::POP(t) => return self.pop(t),
            Instruction::NOP | Instruction::DI | Instruction::EI => Ok(()),
            Instruction::LDIMM16(t) => self.load_imm16(t),
            Instruction::LD16A | Instruction::LDA16 | Instruction::LD8A | Instruction::LDA8
            | Instruction::LDCA | Instruction::LDAC => self.transfer_a(inst),
            Instruction::LDIMM8(t) => self.load_imm8(t),
            Instruction::LDRR(src, dst) => self.load_between(src, dst),
            Instruction::INC16(t) => self.step16(t, true),
            Instruction::DEC16(t) => self.step16(t, false),
            Instruction::INC8(t) => self.step8(t, true),
            Instruction::DEC8(t) => self.step8(t, false),
            Instruction::CPL => {
                self.regs.a = 255 - self.regs.a;
                self.regs.f.subtract = true;
                self.regs.f.half_carry = true;
                Ok(())
            },
            Instruction::CCF => {
                self.regs.f.subtract = false;
                self.regs.f.half_carry = false;
                self.regs.f.carry = !self.regs.f.carry;
                Ok(())
            },
            _ => self.arith(inst),
        };
        match done {
            Ok(_) => Ok((len, clock)),
            Err(e) => Err(e),
        }
    }

    /// Executes an extended instruction. Returns its length and cycles; a
    /// failing instruction changes nothing.
    pub fn execute_cb(&mut self, inst: CBInstruction) -> (r: Result<(u16, u64), EmuError>)
        requires
            old(self).wf(),
        ensures
            final(self).wf(),
            meets(old(self)@, final(self)@, r, execute_cb_spec(old(self)@, inst)),
    {
        proof {
            reveal(execute_cb_spec);
        }
        let len = inst.len();
        let clock = inst.clock();
        let target = match inst {
            CBInstruction::RLC(t) | CBInstruction::RRC(t) | CBInstruction::RL(t) | CBInstruction::RR(t)
            | CBInstruction::SLA(t) | CBInstruction::SRA(t) | CBInstruction::SWAP(t)
            | CBInstruction::SRL(t) => t,
            CBInstruction::BIT(t, n) | CBInstruction::RES(t, n) | CBInstruction::SET(t, n) => {
                if n >= 8 {
                    return Err(EmuError::InvalidOperand);
                }
                t
            },
        };
        let value = match self.get_r8(target) {
            Ok(v) => v,
            Err(e) => return Err(e),
        };
        let carry = self.regs.f.carry;
        let (result, new_carry) = match inst {
            CBInstruction::BIT(_, n) => {
                self.regs.f.zero = !((value >> n) & 1 == 1);
                self.regs.f.subtract = false;
                self.regs.f.half_carry = true;
                return Ok((len, clock));
            },
            CBInstruction::RES(_, n) => {
                return match self.set_r8(target, value & !(1u8 << n)) {
                    Ok(_) => Ok((len, clock)),
                    Err(e) => Err(e),
                };
            },
            CBInstruction::SET(_, n) => {
                return match self.set_r8(target, value | (1u8 << n)) {
                    Ok(_) => Ok((len, clock)),
                    Err(e) => Err(e),
                };
            },
            CBInstruction::RLC(_) => rlc(value),
            CBInstruction::RRC(_) => rrc(value),
            CBInstruction::RL(_) => rl(value, carry),
            CBInstruction::RR(_) => rr(value, carry),
            CBInstruction::SLA(_) => sla(value),
            CBInstruction::SRA(_) => sra(value),
            CBInstruction::SWAP(_) => swap(value),
            CBInstruction::SRL(_) => srl(value),
        };
        match self.set_r8(target, result) {
            Ok(_) => {},
            Err(e) => return Err(e),
        }
        self.regs.f = Flags { zero: result == 0, subtract: false, half_carry: false, carry: new_carry };
        Ok((len, clock))
    }

    /// Runs one instruction: fetches the opcode at the program counter
    /// (and, after the 0xCB prefix, the extended opcode), executes it and
    /// advances the program counter. Returns the cycles taken; a failing
    /// step changes nothing.
    pub fn step(&mut self) -> (r: Result<u64, EmuError>)
        requires
            old(self).wf(),
        ensures
            final(self).wf(),
            match step_spec(old(self)@) {
                Ok((s2, clk)) => r == Ok::<u64, EmuError>(clk) && final(self)@ == s2,
                Err(e) => r == Err::<u64, EmuError>(e) && final(self)@ == old(self)@,
            },
    {
        let byte = match self.load(self.pc, DataSize::Byte) {
            Ok(v) => v as u8,
            Err(e) => return Err(e),
        };
        let (offset, clock) = if byte == CB_PREFIX {
            let code = match self.load(self.pc.wrapping_add(1), DataSize::Byte) {
                Ok(v) => v as u8,
                Err(e) => return Err(e),
            };
            match self.execute_cb(CBInstruction::from_byte(code)) {
                Ok(v) => v,
                Err(e) => return Err(e),
            }
        } else {
            match Instruction::from_byte(byte) {
                Some(inst) => match self.execute(inst) {
                    Ok(v) => v,
                    Err(e) => return Err(e),
                },
                None => return Err(EmuError::UnknownOpcode),
            }
        };
        self.pc = self.pc.wrapping_add(offset);
        Ok(clock)
    }
}

} // verus!
