//! The register file of the SM83: seven byte registers, four flags, the
//! stack pointer and the program counter.
//!
//! The flag register F is held as its four flags, so that its low nibble is
//! zero by construction.

use vstd::prelude::*;
use crate::bits::bit_of;

verus! {

/// The mathematical content of the register file.
pub struct RegisterFile {
    pub a: u8,
    pub b: u8,
    pub c: u8,
    pub d: u8,
    pub e: u8,
    pub h: u8,
    pub l: u8,
    pub zero: bool,
    pub negative: bool,
    pub half_carry: bool,
    pub carry: bool,
    pub sp: u16,
    pub pc: u16,
}

/// The word whose high byte is `high` and whose low byte is `low`.
pub open spec fn pair(high: u8, low: u8) -> u16 {
    (high * 256 + low) as u16
}

/// The high byte of a word.
pub open spec fn high_byte(word: u16) -> u8 {
    (word / 256) as u8
}

/// The low byte of a word.
pub open spec fn low_byte(word: u16) -> u8 {
    (word % 256) as u8
}

impl RegisterFile {
    /// The flag register: Z in bit 7, N in bit 6, H in bit 5, C in bit 4.
    pub open spec fn f(self) -> u8 {
        ((if self.zero { 128int } else { 0 }) + (if self.negative { 64int } else { 0 })
            + (if self.half_carry { 32int } else { 0 }) + (if self.carry { 16int } else { 0 })) as u8
    }

    pub open spec fn af(self) -> u16 {
        pair(self.a, self.f())
    }

    pub open spec fn bc(self) -> u16 {
        pair(self.b, self.c)
    }

    pub open spec fn de(self) -> u16 {
        pair(self.d, self.e)
    }

    pub open spec fn hl(self) -> u16 {
        pair(self.h, self.l)
    }

    /// The file after AF is written: the low nibble of F is dropped.
    pub open spec fn with_af(self, af: u16) -> RegisterFile {
        RegisterFile {
            a: high_byte(af),
            zero: bit_of(af as int, 7),
            negative: bit_of(af as int, 6),
            half_carry: bit_of(af as int, 5),
            carry: bit_of(af as int, 4),
            ..self
        }
    }

    pub open spec fn with_bc(self, bc: u16) -> RegisterFile {
        RegisterFile { b: high_byte(bc), c: low_byte(bc), ..self }
    }

    pub open spec fn with_de(self, de: u16) -> RegisterFile {
        RegisterFile { d: high_byte(de), e: low_byte(de), ..self }
    }

    pub open spec fn with_hl(self, hl: u16) -> RegisterFile {
        RegisterFile { h: high_byte(hl), l: low_byte(hl), ..self }
    }

    /// The file with all four flags replaced.
    pub open spec fn with_flags(self, zero: bool, negative: bool, half_carry: bool, carry: bool) -> RegisterFile {
        RegisterFile { zero, negative, half_carry, carry, ..self }
    }

    /// The file after the program counter has moved on by `by`, modulo 65536.
    pub open spec fn with_pc_advanced(self, by: u16) -> RegisterFile {
        RegisterFile { pc: ((self.pc + by) % 65536) as u16, ..self }
    }

    /// The register file at power-on.
    pub open spec fn zeroed() -> RegisterFile {
        RegisterFile {
            a: 0,
            b: 0,
            c: 0,
            d: 0,
            e: 0,
            h: 0,
            l: 0,
            zero: false,
            negative: false,
            half_carry: false,
            carry: false,
            sp: 0,
            pc: 0,
        }
    }

    /// The register file as the boot program leaves it.
    pub open spec fn after_boot() -> RegisterFile {
        RegisterFile {
            a: 0x01,
            b: 0x00,
            c: 0x13,
            d: 0x00,
            e: 0xd8,
            h: 0x01,
            l: 0x4d,
            zero: true,
            negative: false,
            half_carry: true,
            carry: true,
            sp: 0xfffe,
            pc: 0x0100,
        }
    }
}

#[derive(Clone, Copy, Debug)]
pub struct Registers {
    a: u8,
    b: u8,
    c: u8,
    d: u8,
    e: u8,
    h: u8,
    l: u8,
    zero: bool,
    negative: bool,
    half_carry: bool,
    carry: bool,
    sp: u16,
    pc: u16,
}

impl View for Registers {
    type V = RegisterFile;

    closed spec fn view(&self) -> RegisterFile {
        RegisterFile {
            a: self.a,
            b: self.b,
            c: self.c,
            d: self.d,
            e: self.e,
            h: self.h,
            l: self.l,
            zero: self.zero,
            negative: self.negative,
            half_carry: self.half_carry,
            carry: self.carry,
            sp: self.sp,
            pc: self.pc,
        }
    }
}

impl Registers {
    /// All registers and flags cleared.
    pub fn new() -> (r: Self)
        ensures
            r@ == RegisterFile::zeroed(),
    {
        Self {
            a: 0,
            b: 0,
            c: 0,
            d: 0,
            e: 0,
            h: 0,
            l: 0,
            zero: false,
            negative: false,
            half_carry: false,
            carry: false,
            sp: 0,
            pc: 0,
        }
    }

    /// The registers as they stand when the boot program hands over:
    /// AF=0x01B0, BC=0x0013, DE=0x00D8, HL=0x014D, SP=0xFFFE, PC=0x0100.
    pub fn no_boot() -> (r: Self)
        ensures
            r@ == RegisterFile::after_boot(),
            r@.af() == 0x01b0,
            r@.bc() == 0x0013,
            r@.de() == 0x00d8,
            r@.hl() == 0x014d,
    {
        Self {
            a: 0x01,
            b: 0x00,
            c: 0x13,
            d: 0x00,
            e: 0xd8,
            h: 0x01,
            l: 0x4d,
            zero: true,
            negative: false,
            half_carry: true,
            carry: true,
            sp: 0xfffe,
            pc: 0x0100,
        }
    }

    pub fn a(&self) -> (r: u8)
        ensures
            r == self@.a,
    {
        self.a
    }

    pub fn set_a(&mut self, a: u8)
        ensures
            final(self)@ == (RegisterFile { a: a, ..old(self)@ }),
    {
        self.a = a;
    }

    pub fn b(&self) -> (r: u8)
        ensures
            r == self@.b,
    {
        self.b
    }

    pub fn set_b(&mut self, b: u8)
        ensures
            final(self)@ == (RegisterFile { b: b, ..old(self)@ }),
    {
        self.b = b;
    }

    pub fn c(&self) -> (r: u8)
        ensures
            r == self@.c,
    {
        self.c
    }

    pub fn set_c(&mut self, c: u8)
        ensures
            final(self)@ == (RegisterFile { c: c, ..old(self)@ }),
    {
        self.c = c;
    }

    pub fn d(&self) -> (r: u8)
        ensures
            r == self@.d,
    {
        self.d
    }

    pub fn set_d(&mut self, d: u8)
        ensures
            final(self)@ == (RegisterFile { d: d, ..old(self)@ }),
    {
        self.d = d;
    }

    pub fn e(&self) -> (r: u8)
        ensures
            r == self@.e,
    {
        self.e
    }

    pub fn set_e(&mut self, e: u8)
        ensures
            final(self)@ == (RegisterFile { e: e, ..old(self)@ }),
    {
        self.e = e;
    }

    pub fn h(&self) -> (r: u8)
        ensures
            r == self@.h,
    {
        self.h
    }

    pub fn set_h(&mut self, h: u8)
        ensures
            final(self)@ == (RegisterFile { h: h, ..old(self)@ }),
    {
        self.h = h;
    }

    pub fn l(&self) -> (r: u8)
        ensures
            r == self@.l,
    {
        self.l
    }

    pub fn set_l(&mut self, l: u8)
        ensures
            final(self)@ == (RegisterFile { l: l, ..old(self)@ }),
    {
        self.l = l;
    }

    /// The flag register; its low nibble is always zero.
    pub fn f(&self) -> (r: u8)
        ensures
            r == self@.f(),
            r & 0x0f == 0,
    {
        let z: u8 = if self.zero { 128 } else { 0 };
        let n: u8 = if self.negative { 64 } else { 0 };
        let h: u8 = if self.half_carry { 32 } else { 0 };
        let c: u8 = if self.carry { 16 } else { 0 };
        let r: u8 = z + n + h + c;
        proof {
            lemma_high_nibble(r);
        }
        r
    }

    pub fn af(&self) -> (r: u16)
        ensures
            r == self@.af(),
            r & 0x000f == 0,
    {
        let f = self.f();
        let r: u16 = (self.a as u16) * 256 + f as u16;
        proof {
            lemma_low_four(r);
        }
        r
    }

    /// Writes A and the four flags; bits 0 to 3 of the value are dropped.
    pub fn set_af(&mut self, af: u16)
        ensures
            final(self)@ == old(self)@.with_af(af),
            final(self)@.af() == af & 0xfff0,
    {
        self.a = (af / 256) as u8;
        self.zero = (af / 128) % 2 == 1;
        self.negative = (af / 64) % 2 == 1;
        self.half_carry = (af / 32) % 2 == 1;
        self.carry = (af / 16) % 2 == 1;
        proof {
            lemma_af_round_trip(old(self)@, af);
        }
    }

    pub fn bc(&self) -> (r: u16)
        ensures
            r == self@.bc(),
    {
        (self.b as u16) * 256 + self.c as u16
    }

    pub fn set_bc(&mut self, bc: u16)
        ensures
            final(self)@ == old(self)@.with_bc(bc),
            final(self)@.bc() == bc,
    {
        self.b = (bc / 256) as u8;
        self.c = (bc % 256) as u8;
    }

    pub fn de(&self) -> (r: u16)
        ensures
            r == self@.de(),
    {
        (self.d as u16) * 256 + self.e as u16
    }

    pub fn set_de(&mut self, de: u16)
        ensures
            final(self)@ == old(self)@.with_de(de),
            final(self)@.de() == de,
    {
        self.d = (de / 256) as u8;
        self.e = (de % 256) as u8;
    }

    pub fn hl(&self) -> (r: u16)
        ensures
            r == self@.hl(),
    {
        (self.h as u16) * 256 + self.l as u16
    }

    pub fn set_hl(&mut self, hl: u16)
        ensures
            final(self)@ == old(self)@.with_hl(hl),
            final(self)@.hl() == hl,
    {
        self.h = (hl / 256) as u8;
        self.l = (hl % 256) as u8;
    }

    pub fn sp(&self) -> (r: u16)
        ensures
            r == self@.sp,
    {
        self.sp
    }

    pub fn set_sp(&mut self, sp: u16)
        ensures
            final(self)@ == (RegisterFile { sp: sp, ..old(self)@ }),
    {
        self.sp = sp;
    }

    pub fn pc(&self) -> (r: u16)
        ensures
            r == self@.pc,
    {
        self.pc
    }

    /// Moves the program counter on by `by`, wrapping at 65536.
    pub fn inc_pc(&mut self, by: u16)
        ensures
            final(self)@ == old(self)@.with_pc_advanced(by),
    {
        self.pc = ((self.pc as u32 + by as u32) % 65536) as u16;
    }

    pub fn set_pc(&mut self, pc: u16)
        ensures
            final(self)@ == (RegisterFile { pc: pc, ..old(self)@ }),
    {
        self.pc = pc;
    }

    pub fn zero_flag(&self) -> (r: bool)
        ensures
            r == self@.zero,
    {
        self.zero
    }

    pub fn set_zero_flag(&mut self, set: bool)
        ensures
            final(self)@ == (RegisterFile { zero: set, ..old(self)@ }),
    {
        self.zero = set;
    }

    pub fn negative_flag(&self) -> (r: bool)
        ensures
            r == self@.negative,
    {
        self.negative
    }

    pub fn set_negative_flag(&mut self, set: bool)
        ensures
            final(self)@ == (RegisterFile { negative: set, ..old(self)@ }),
    {
        self.negative = set;
    }

    pub fn half_carry_flag(&self) -> (r: bool)
        ensures
            r == self@.half_carry,
    {
        self.half_carry
    }

    pub fn set_half_carry_flag(&mut self, set: bool)
        ensures
            final(self)@ == (RegisterFile { half_carry: set, ..old(self)@ }),
    {
        self.half_carry = set;
    }

    pub fn carry_flag(&self) -> (r: bool)
        ensures
            r == self@.carry,
    {
        self.carry
    }

    pub fn set_carry_flag(&mut self, set: bool)
        ensures
            final(self)@ == (RegisterFile { carry: set, ..old(self)@ }),
    {
        self.carry = set;
    }

    /// Replaces all four flags at once.
    pub fn set_flags(&mut self, zero: bool, negative: bool, half_carry: bool, carry: bool)
        ensures
            final(self)@ == old(self)@.with_flags(zero, negative, half_carry, carry),
    {
        self.zero = zero;
        self.negative = negative;
        self.half_carry = half_carry;
        self.carry = carry;
    }
}

/// A byte that is a multiple of 16 has an empty low nibble.
pub proof fn lemma_high_nibble(r: u8)
    requires
        r % 16 == 0,
    ensures
        r & 0x0f == 0,
{
    assert(r % 16 == 0 ==> r & 0x0f == 0) by (bit_vector);
}

/// A word that is a multiple of 16 has its four lowest bits clear.
pub proof fn lemma_low_four(r: u16)
    requires
        r % 16 == 0,
    ensures
        r & 0x000f == 0,
{
    assert(r % 16 == 0 ==> r & 0x000f == 0) by (bit_vector);
}

/// Writing a pair and reading it back gives the value written, for BC, DE
/// and HL.
pub proof fn lemma_pair_round_trip(regs: RegisterFile, x: u16)
    ensures
        regs.with_bc(x).bc() == x,
        regs.with_de(x).de() == x,
        regs.with_hl(x).hl() == x,
{
}

/// Writing AF and reading it back gives the value written without its four
/// lowest bits.
pub proof fn lemma_af_round_trip(regs: RegisterFile, x: u16)
    ensures
        regs.with_af(x).af() == x & 0xfff0,
        regs.with_af(x).f() & 0x0f == 0,
{
    let after = regs.with_af(x);
    let z: u16 = if (x / 128) % 2 == 1 { 128 } else { 0 };
    let n: u16 = if (x / 64) % 2 == 1 { 64 } else { 0 };
    let h: u16 = if (x / 32) % 2 == 1 { 32 } else { 0 };
    let c: u16 = if (x / 16) % 2 == 1 { 16 } else { 0 };
    assert(after.zero == ((x / 128) % 2 == 1));
    assert(after.negative == ((x / 64) % 2 == 1));
    assert(after.half_carry == ((x / 32) % 2 == 1));
    assert(after.carry == ((x / 16) % 2 == 1));
    assert(after.f() == z + n + h + c);
    assert((x / 256) * 256 + z + n + h + c == x & 0xfff0) by (bit_vector)
        requires
            z == (if (x / 128) % 2 == 1 { 128u16 } else { 0u16 }),
            n == (if (x / 64) % 2 == 1 { 64u16 } else { 0u16 }),
            h == (if (x / 32) % 2 == 1 { 32u16 } else { 0u16 }),
            c == (if (x / 16) % 2 == 1 { 16u16 } else { 0u16 }),
    ;
    lemma_high_nibble(after.f());
}

/// The flag register never holds anything in its low nibble, and every
/// register fits its width.
pub proof fn lemma_flag_register_shape(regs: RegisterFile)
    ensures
        regs.f() & 0x0f == 0,
        regs.f() % 16 == 0,
        0 <= regs.pc < 65536,
        0 <= regs.sp < 65536,
{
    lemma_high_nibble(regs.f());
}

} // verus!
