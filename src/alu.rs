use vstd::prelude::*;
use crate::registers::Flags;

verus! {

pub open spec fn bit_of(b: bool) -> int {
    if b {
        1
    } else {
        0
    }
}

/// ADD and ADC: the half-carry and carry come from the nibble and byte sums
/// with the carry-in folded in; the result wraps modulo 256.
pub open spec fn add8(a: u8, v: u8, carry_in: bool) -> (u8, Flags) {
    let c = bit_of(carry_in);
    let res = ((a + v + c) % 256) as u8;
    (
        res,
        Flags {
            zero: res == 0,
            subtract: false,
            half_carry: a % 16 + v % 16 + c > 15,
            carry: a + v + c > 255,
        },
    )
}

/// SUB, SBC and CMP: a borrow out of the low nibble sets half-carry, a
/// borrow out of the byte sets carry.
pub open spec fn sub8(a: u8, v: u8, carry_in: bool) -> (u8, Flags) {
    let c = bit_of(carry_in);
    let res = ((a - v - c) % 256) as u8;
    (
        res,
        Flags { zero: res == 0, subtract: true, half_carry: a % 16 < v % 16 + c, carry: a < v + c },
    )
}

/// The flags of AND, XOR and OR: half-carry only for AND, carry never.
pub open spec fn logic_flags(res: u8, is_and: bool) -> Flags {
    Flags { zero: res == 0, subtract: false, half_carry: is_and, carry: false }
}

/// INC8: carry is kept.
pub open spec fn inc8(v: u8, f: Flags) -> (u8, Flags) {
    let res = ((v + 1) % 256) as u8;
    (res, Flags { zero: res == 0, subtract: false, half_carry: v % 16 == 15, carry: f.carry })
}

/// DEC8: carry is kept.
pub open spec fn dec8(v: u8, f: Flags) -> (u8, Flags) {
    let res = ((v - 1) % 256) as u8;
    (res, Flags { zero: res == 0, subtract: true, half_carry: v % 16 == 0, carry: f.carry })
}

pub fn alu_add(a: u8, v: u8, carry_in: bool) -> (r: (u8, Flags))
    ensures
        r == add8(a, v, carry_in),
{
    let c: u16 = if carry_in {
        1
    } else {
        0
    };
    let sum: u16 = a as u16 + v as u16 + c;
    let res = (sum % 256) as u8;
    let half = (a % 16) as u16 + (v % 16) as u16 + c > 15;
    (res, Flags { zero: res == 0, subtract: false, half_carry: half, carry: sum > 255 })
}

pub fn alu_sub(a: u8, v: u8, carry_in: bool) -> (r: (u8, Flags))
    ensures
        r == sub8(a, v, carry_in),
{
    let c: u16 = if carry_in {
        1
    } else {
        0
    };
    let diff: u16 = 256 + a as u16 - v as u16 - c;
    let res = (diff % 256) as u8;
    let half = ((a % 16) as u16) < (v % 16) as u16 + c;
    let carry = (a as u16) < v as u16 + c;
    (res, Flags { zero: res == 0, subtract: true, half_carry: half, carry })
}

pub fn alu_inc(v: u8, f: Flags) -> (r: (u8, Flags))
    ensures
        r == inc8(v, f),
{
    let res = v.wrapping_add(1);
    (res, Flags { zero: res == 0, subtract: false, half_carry: v % 16 == 15, carry: f.carry })
}

pub fn alu_dec(v: u8, f: Flags) -> (r: (u8, Flags))
    ensures
        r == dec8(v, f),
{
    let res = v.wrapping_sub(1);
    (res, Flags { zero: res == 0, subtract: true, half_carry: v % 16 == 0, carry: f.carry })
}

/// RLC: rotate left, bit 7 into carry and bit 0.
pub open spec fn rlc8(v: u8) -> (u8, bool) {
    (((v * 2) % 256 + v / 128) as u8, v >= 128)
}

/// RRC: rotate right, bit 0 into carry and bit 7.
pub open spec fn rrc8(v: u8) -> (u8, bool) {
    ((v / 2 + (v % 2) * 128) as u8, v % 2 == 1)
}

/// RL: rotate left through the previous carry.
pub open spec fn rl8(v: u8, carry: bool) -> (u8, bool) {
    (((v * 2) % 256 + bit_of(carry)) as u8, v >= 128)
}

/// RR: rotate right through the previous carry.
pub open spec fn rr8(v: u8, carry: bool) -> (u8, bool) {
    ((v / 2 + bit_of(carry) * 128) as u8, v % 2 == 1)
}

/// SLA: shift left, bit 0 cleared.
pub open spec fn sla8(v: u8) -> (u8, bool) {
    (((v * 2) % 256) as u8, v >= 128)
}

/// SRA: shift right, the sign bit kept.
pub open spec fn sra8(v: u8) -> (u8, bool) {
    ((v / 2 + (v / 128) * 128) as u8, v % 2 == 1)
}

/// SWAP: exchange the nibbles; carry cleared.
pub open spec fn swap8(v: u8) -> (u8, bool) {
    (((v % 16) * 16 + v / 16) as u8, false)
}

/// SRL: shift right, bit 7 cleared.
pub open spec fn srl8(v: u8) -> (u8, bool) {
    ((v / 2) as u8, v % 2 == 1)
}

/// The flags after a rotate or shift: zero from the result, the carry that
/// was shifted out, subtract and half-carry cleared.
pub open spec fn shift_flags(res: u8, carry: bool) -> Flags {
    Flags { zero: res == 0, subtract: false, half_carry: false, carry }
}

pub fn rlc(v: u8) -> (r: (u8, bool))
    ensures
        r == rlc8(v),
{
    (((v as u16 * 2) % 256 + (v / 128) as u16) as u8, v >= 128)
}

pub fn rrc(v: u8) -> (r: (u8, bool))
    ensures
        r == rrc8(v),
{
    (v / 2 + (v % 2) * 128, v % 2 == 1)
}

pub fn rl(v: u8, carry: bool) -> (r: (u8, bool))
    ensures
        r == rl8(v, carry),
{
    let c: u16 = if carry {
        1
    } else {
        0
    };
    (((v as u16 * 2) % 256 + c) as u8, v >= 128)
}

pub fn rr(v: u8, carry: bool) -> (r: (u8, bool))
    ensures
        r == rr8(v, carry),
{
    let c: u8 = if carry {
        128
    } else {
        0
    };
    (v / 2 + c, v % 2 == 1)
}

pub fn sla(v: u8) -> (r: (u8, bool))
    ensures
        r == sla8(v),
{
    (((v as u16 * 2) % 256) as u8, v >= 128)
}

pub fn sra(v: u8) -> (r: (u8, bool))
    ensures
        r == sra8(v),
{
    (v / 2 + (v / 128) * 128, v % 2 == 1)
}

pub fn swap(v: u8) -> (r: (u8, bool))
    ensures
        r == swap8(v),
{
    ((v % 16) * 16 + v / 16, false)
}

pub fn srl(v: u8) -> (r: (u8, bool))
    ensures
        r == srl8(v),
{
    (v / 2, v % 2 == 1)
}

/// Bit `n` of `v`.
pub open spec fn bit_set(v: u8, n: u8) -> bool {
    (v >> n) & 1 == 1
}

pub open spec fn res8(v: u8, n: u8) -> u8 {
    v & !(1u8 << n)
}

pub open spec fn set8(v: u8, n: u8) -> u8 {
    v | (1u8 << n)
}

} // verus!
