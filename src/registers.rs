use vstd::prelude::*;

verus! {

/// The four status flags.
#[derive(Debug, Clone, Copy, PartialEq, Eq, Structural)]
pub struct Flags {
    pub zero: bool,
    pub subtract: bool,
    pub half_carry: bool,
    pub carry: bool,
}

/// The flags as the low byte of AF: zero in bit 7, subtract in bit 6,
/// half-carry in bit 5, carry in bit 4, bits 3-0 clear.
pub open spec fn flags_byte(f: Flags) -> u8 {
    ((if f.zero { 128int } else { 0 }) + (if f.subtract { 64int } else { 0 }) + (if f.half_carry {
        32int
    } else {
        0
    }) + (if f.carry { 16int } else { 0 })) as u8
}

/// The flags that the high nibble of a byte holds; the low nibble is ignored.
pub open spec fn flags_of(b: u8) -> Flags {
    Flags {
        zero: (b / 128) % 2 == 1,
        subtract: (b / 64) % 2 == 1,
        half_carry: (b / 32) % 2 == 1,
        carry: (b / 16) % 2 == 1,
    }
}

/// A 16-bit pair from its high and low byte.
pub open spec fn pair(hi: u8, lo: u8) -> u16 {
    (hi as int * 256 + lo as int) as u16
}

pub open spec fn high(v: u16) -> u8 {
    (v / 256) as u8
}

pub open spec fn low(v: u16) -> u8 {
    (v % 256) as u8
}

impl Flags {
    pub fn to_byte(&self) -> (r: u8)
        ensures
            r == flags_byte(*self),
    {
        let mut r: u8 = 0;
        if self.zero {
            r = r + 128;
        }
        if self.subtract {
            r = r + 64;
        }
        if self.half_carry {
            r = r + 32;
        }
        if self.carry {
            r = r + 16;
        }
        r
    }

    pub fn from_byte(b: u8) -> (f: Flags)
        ensures
            f == flags_of(b),
    {
        Flags {
            zero: (b / 128) % 2 == 1,
            subtract: (b / 64) % 2 == 1,
            half_carry: (b / 32) % 2 == 1,
            carry: (b / 16) % 2 == 1,
        }
    }
}

/// All registers zero, all flags clear.
pub open spec fn zeroed() -> Registers {
    Registers {
        a: 0,
        b: 0,
        c: 0,
        d: 0,
        e: 0,
        f: Flags { zero: false, subtract: false, half_carry: false, carry: false },
        h: 0,
        l: 0,
    }
}

/// The eight 8-bit registers, with F held as its four flags.
#[derive(Debug, Clone, Copy, PartialEq, Eq, Structural)]
pub struct Registers {
    pub a: u8,
    pub b: u8,
    pub c: u8,
    pub d: u8,
    pub e: u8,
    pub f: Flags,
    pub h: u8,
    pub l: u8,
}

impl Registers {
    pub open spec fn af(self) -> u16 {
        pair(self.a, flags_byte(self.f))
    }

    pub open spec fn bc(self) -> u16 {
        pair(self.b, self.c)
    }

    pub open spec fn de(self) -> u16 {
        pair(self.d, self.e)
    }

    pub open spec fn hl(self) -> u16 {
        pair(self.h, self.l)
    }

    /// All registers zero, all flags clear.
    pub fn new() -> (r: Registers)
        ensures
            r == zeroed(),
    {
        Registers {
            a: 0,
            b: 0,
            c: 0,
            d: 0,
            e: 0,
            f: Flags { zero: false, subtract: false, half_carry: false, carry: false },
            h: 0,
            l: 0,
        }
    }

    pub fn get_af(&self) -> (r: u16)
        ensures
            r == self.af(),
    {
        self.a as u16 * 256 + self.f.to_byte() as u16
    }

    pub fn get_bc(&self) -> (r: u16)
        ensures
            r == self.bc(),
    {
        self.b as u16 * 256 + self.c as u16
    }

    pub fn get_de(&self) -> (r: u16)
        ensures
            r == self.de(),
    {
        self.d as u16 * 256 + self.e as u16
    }

    pub fn get_hl(&self) -> (r: u16)
        ensures
            r == self.hl(),
    {
        self.h as u16 * 256 + self.l as u16
    }

    /// Sets A from the high byte and the flags from the high nibble of the
    /// low byte.
    pub fn set_af(&mut self, v: u16)
        ensures
            *final(self) == (Registers { a: high(v), f: flags_of(low(v)), ..*old(self) }),
    {
        self.a = (v / 256) as u8;
        self.f = Flags::from_byte((v % 256) as u8);
    }

    pub fn set_bc(&mut self, v: u16)
        ensures
            *final(self) == (Registers { b: high(v), c: low(v), ..*old(self) }),
    {
        self.b = (v / 256) as u8;
        self.c = (v % 256) as u8;
    }

    pub fn set_de(&mut self, v: u16)
        ensures
            *final(self) == (Registers { d: high(v), e: low(v), ..*old(self) }),
    {
        self.d = (v / 256) as u8;
        self.e = (v % 256) as u8;
    }

    pub fn set_hl(&mut self, v: u16)
        ensures
            *final(self) == (Registers { h: high(v), l: low(v), ..*old(self) }),
    {
        self.h = (v / 256) as u8;
        self.l = (v % 256) as u8;
    }
}

/// Setting a pair to the value it reads back leaves the registers as they
/// were; for AF this holds because the flags fill only the high nibble of F.
pub proof fn lemma_pair_round_trip(r: Registers)
    ensures
        (Registers { a: high(r.af()), f: flags_of(low(r.af())), ..r }) == r,
        (Registers { b: high(r.bc()), c: low(r.bc()), ..r }) == r,
        (Registers { d: high(r.de()), e: low(r.de()), ..r }) == r,
        (Registers { h: high(r.hl()), l: low(r.hl()), ..r }) == r,
{
}

/// Reading BC, DE or HL back after setting it gives the value set.
pub proof fn lemma_pair_set_get(r: Registers, v: u16)
    ensures
        (Registers { b: high(v), c: low(v), ..r }).bc() == v,
        (Registers { d: high(v), e: low(v), ..r }).de() == v,
        (Registers { h: high(v), l: low(v), ..r }).hl() == v,
{
}

} // verus!
