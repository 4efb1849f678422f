//! Flag-producing arithmetic of the SM83 core.
//!
//! Every helper returns the wrapped result together with the carry (or
//! borrow) and the half carry (or half borrow).  The spec functions state
//! the results over unbounded integers; the executable functions are proved
//! to agree with them.

use vstd::prelude::*;
use crate::instruction::{AluOp, RotOp};

verus! {

/// `a + b` on bytes: sum modulo 256, carry out of bit 7, carry out of bit 3.
pub open spec fn spec_add8(a: u8, b: u8) -> (u8, bool, bool) {
    (((a + b) % 256) as u8, a + b > 0xff, (a % 16) + (b % 16) > 0xf)
}

/// `a + b + c` on bytes, as two chained additions whose carries are joined.
pub open spec fn spec_add8_c(a: u8, b: u8, c: u8) -> (u8, bool, bool) {
    let first = spec_add8(a, b);
    let second = spec_add8(first.0, c);
    (second.0, first.1 || second.1, first.2 || second.2)
}

/// `a + b` on 16-bit words: sum modulo 65536, carry out of bit 15, carry out
/// of bit 11.
pub open spec fn spec_add16(a: u16, b: u16) -> (u16, bool, bool) {
    (((a + b) % 65536) as u16, a + b > 0xffff, (a % 4096) + (b % 4096) > 0xfff)
}

/// `a - b` on bytes: difference modulo 256, borrow, borrow from bit 4.
pub open spec fn spec_sub8(a: u8, b: u8) -> (u8, bool, bool) {
    (((a - b) % 256) as u8, a < b, (a % 16) < (b % 16))
}

/// `a - b - c` on bytes, as two chained subtractions whose borrows are joined.
pub open spec fn spec_sub8_c(a: u8, b: u8, c: u8) -> (u8, bool, bool) {
    let first = spec_sub8(a, b);
    let second = spec_sub8(first.0, c);
    (second.0, first.1 || second.1, first.2 || second.2)
}

/// The two's-complement value of a byte, extended to sixteen bits.
pub open spec fn spec_sext(val: u8) -> u16 {
    if val >= 0x80 {
        (0xff00 + val) as u16
    } else {
        val as u16
    }
}

/// The signed value that a byte stands for in two's complement.
pub open spec fn signed(val: u8) -> int {
    if val >= 0x80 {
        val - 256
    } else {
        val as int
    }
}

/// Adds two bytes.
pub fn add2_8bit(a: u8, b: u8) -> (r: (u8, bool, bool))
    ensures
        r == spec_add8(a, b),
        r.0 == (a + b) % 256,
        r.1 == (a + b > 0xff),
        r.2 == ((a & 0xf) + (b & 0xf) > 0xf),
{
    proof {
        lemma_low_nibble(a);
        lemma_low_nibble(b);
    }
    let wide: u16 = a as u16 + b as u16;
    let res: u8 = (wide % 256) as u8;
    let carry = wide > 0xff;
    let half_carry = (a % 16) + (b % 16) > 0xf;
    (res, carry, half_carry)
}

/// Adds three bytes; the third is usually the carry flag.
pub fn add3_8bit(a: u8, b: u8, c: u8) -> (r: (u8, bool, bool))
    ensures
        r == spec_add8_c(a, b, c),
        r.0 == (a + b + c) % 256,
        c <= 1 ==> r.1 == (a + b + c > 0xff),
        c <= 1 ==> r.2 == ((a % 16) + (b % 16) + c > 0xf),
{
    let (temp, c1, hc1) = add2_8bit(a, b);
    let (res, c2, hc2) = add2_8bit(temp, c);
    proof {
        assert(temp == (if a + b >= 256 { a + b - 256 } else { a + b }));
        assert(res == (if temp + c >= 256 { temp + c - 256 } else { temp + c }));
        if c <= 1 {
            assert(temp % 16 == (if a % 16 + b % 16 >= 16 { a % 16 + b % 16 - 16 } else {
                a % 16 + b % 16
            }));
        }
    }
    (res, c1 || c2, hc1 || hc2)
}

/// Adds two 16-bit words; the half carry is the carry out of bit 11.
pub fn add2_16bit(a: u16, b: u16) -> (r: (u16, bool, bool))
    ensures
        r == spec_add16(a, b),
        r.0 == (a + b) % 65536,
        r.1 == (a + b > 0xffff),
        r.2 == ((a & 0xfff) + (b & 0xfff) > 0xfff),
{
    proof {
        lemma_low_twelve(a);
        lemma_low_twelve(b);
    }
    let wide: u32 = a as u32 + b as u32;
    let res: u16 = (wide % 65536) as u16;
    let carry = wide > 0xffff;
    let half_carry = (a % 4096) + (b % 4096) > 0xfff;
    (res, carry, half_carry)
}

/// Subtracts one byte from another.
pub fn sub2_8bit(a: u8, b: u8) -> (r: (u8, bool, bool))
    ensures
        r == spec_sub8(a, b),
        r.0 == (a - b) % 256,
        r.1 == (a < b),
        r.2 == ((a & 0xf) < (b & 0xf)),
{
    proof {
        lemma_low_nibble(a);
        lemma_low_nibble(b);
    }
    let res: u8 = if a >= b {
        a - b
    } else {
        (256 - (b - a) as u16) as u8
    };
    let carry = a < b;
    let half_carry = (a % 16) < (b % 16);
    (res, carry, half_carry)
}

/// Subtracts two bytes from a third; the last is usually the carry flag.
pub fn sub3_8bit(a: u8, b: u8, c: u8) -> (r: (u8, bool, bool))
    ensures
        r == spec_sub8_c(a, b, c),
        r.0 == (a - b - c) % 256,
        c <= 1 ==> r.1 == (a < b + c),
        c <= 1 ==> r.2 == ((a % 16) < (b % 16) + c),
{
    let (temp, c1, hc1) = sub2_8bit(a, b);
    let (res, c2, hc2) = sub2_8bit(temp, c);
    proof {
        assert(temp == (if a >= b { a - b } else { a - b + 256 }));
        assert(res == (if temp >= c { temp - c } else { temp - c + 256 }));
        if c <= 1 {
            assert(temp % 16 == (if a % 16 >= b % 16 { a % 16 - b % 16 } else {
                a % 16 - b % 16 + 16
            }));
        }
    }
    (res, c1 || c2, hc1 || hc2)
}

/// Sign-extends a two's-complement byte to sixteen bits.
pub fn signed_byte_to_u16(val: u8) -> (r: u16)
    ensures
        r == spec_sext(val),
        r as int == (signed(val) + 65536) % 65536,
{
    if val >= 0x80 {
        0xff00 + (val as u16)
    } else {
        val as u16
    }
}

/// Masking a byte with `0xf` keeps its remainder modulo 16.
pub proof fn lemma_low_nibble(a: u8)
    ensures
        a & 0xf == a % 16,
{
    assert(a & 0xf == a % 16) by (bit_vector);
}

/// Masking a word with `0xfff` keeps its remainder modulo 4096.
pub proof fn lemma_low_twelve(a: u16)
    ensures
        a & 0xfff == a % 4096,
{
    assert(a & 0xfff == a % 4096) by (bit_vector);
}

/// Adding a sign-extended byte modulo 65536 moves a word by the signed
/// value of the byte.
pub proof fn lemma_sext_offset(base: u16, val: u8)
    ensures
        spec_add16(base, spec_sext(val)).0 == (base + signed(val) + 65536) % 65536,
{
}

/// The four flags of the processor.
#[derive(Clone, Copy, Debug, PartialEq, Eq, Structural)]
pub struct Flags {
    pub zero: bool,
    pub negative: bool,
    pub half_carry: bool,
    pub carry: bool,
}

/// One for a set carry, zero for a clear one.
pub open spec fn carry_in(carry: bool) -> u8 {
    if carry {
        1
    } else {
        0
    }
}

/// What an arithmetic or logic operation makes of A and an operand: the
/// new A and the flags.  Z is set from the result.  ADD and ADC clear N;
/// SUB, SBC and CP set it, and CP leaves A alone.  AND sets H and clears C;
/// OR and XOR clear both.
pub open spec fn spec_apply(op: AluOp, a: u8, v: u8, carry: bool) -> (u8, Flags) {
    match op {
        AluOp::Add => {
            let r = spec_add8(a, v);
            (r.0, Flags { zero: r.0 == 0, negative: false, half_carry: r.2, carry: r.1 })
        },
        AluOp::Adc => {
            let r = spec_add8_c(a, v, carry_in(carry));
            (r.0, Flags { zero: r.0 == 0, negative: false, half_carry: r.2, carry: r.1 })
        },
        AluOp::Sub => {
            let r = spec_sub8(a, v);
            (r.0, Flags { zero: r.0 == 0, negative: true, half_carry: r.2, carry: r.1 })
        },
        AluOp::Sbc => {
            let r = spec_sub8_c(a, v, carry_in(carry));
            (r.0, Flags { zero: r.0 == 0, negative: true, half_carry: r.2, carry: r.1 })
        },
        AluOp::And => (
            a & v,
            Flags { zero: a & v == 0, negative: false, half_carry: true, carry: false },
        ),
        AluOp::Xor => (
            a ^ v,
            Flags { zero: a ^ v == 0, negative: false, half_carry: false, carry: false },
        ),
        AluOp::Or => (
            a | v,
            Flags { zero: a | v == 0, negative: false, half_carry: false, carry: false },
        ),
        AluOp::Cp => {
            let r = spec_sub8(a, v);
            (a, Flags { zero: r.0 == 0, negative: true, half_carry: r.2, carry: r.1 })
        },
    }
}

/// What a rotate or shift makes of a byte and the carry: the new byte and
/// the bit that left it.  RLC and RRC rotate the byte alone, RL and RR
/// rotate through the carry, SLA and SRL shift a zero in, SRA keeps the
/// sign bit, and SWAP exchanges the nibbles and ejects nothing.
pub open spec fn spec_rotate(op: RotOp, v: u8, carry: bool) -> (u8, bool) {
    match op {
        RotOp::Rlc => (((v % 128) * 2 + v / 128) as u8, v >= 128),
        RotOp::Rrc => ((v / 2 + (v % 2) * 128) as u8, v % 2 == 1),
        RotOp::Rl => (((v % 128) * 2 + carry_in(carry)) as u8, v >= 128),
        RotOp::Rr => ((v / 2 + carry_in(carry) * 128) as u8, v % 2 == 1),
        RotOp::Sla => (((v % 128) * 2) as u8, v >= 128),
        RotOp::Sra => ((v / 2 + (v / 128) * 128) as u8, v % 2 == 1),
        RotOp::Swap => (((v % 16) * 16 + v / 16) as u8, false),
        RotOp::Srl => (v / 2, v % 2 == 1),
    }
}

/// The decimal adjustment of A.  After an addition (N clear) 0x06 is
/// added if H is set or the low nibble is above 9, and 0x60 if C is set or
/// A is above 0x99; after a subtraction (N set) 0x06 is taken off if H is
/// set and 0x60 if C is set.  The carry is set where 0x60 was applied.
pub open spec fn spec_daa(a: u8, negative: bool, half_carry: bool, carry: bool) -> (u8, bool) {
    let low = half_carry || (!negative && a % 16 > 9);
    let high = carry || (!negative && a > 0x99);
    let adjust = (if low { 0x06int } else { 0 }) + (if high { 0x60int } else { 0 });
    (
        if negative {
            ((a - adjust) % 256) as u8
        } else {
            ((a + adjust) % 256) as u8
        },
        high,
    )
}

/// Applies an arithmetic or logic operation to A and an operand.
pub fn apply(op: AluOp, a: u8, v: u8, carry: bool) -> (r: (u8, Flags))
    ensures
        r == spec_apply(op, a, v, carry),
{
    let c: u8 = if carry { 1 } else { 0 };
    match op {
        AluOp::Add => {
            let (res, cy, hc) = add2_8bit(a, v);
            (res, Flags { zero: res == 0, negative: false, half_carry: hc, carry: cy })
        },
        AluOp::Adc => {
            let (res, cy, hc) = add3_8bit(a, v, c);
            (res, Flags { zero: res == 0, negative: false, half_carry: hc, carry: cy })
        },
        AluOp::Sub => {
            let (res, cy, hc) = sub2_8bit(a, v);
            (res, Flags { zero: res == 0, negative: true, half_carry: hc, carry: cy })
        },
        AluOp::Sbc => {
            let (res, cy, hc) = sub3_8bit(a, v, c);
            (res, Flags { zero: res == 0, negative: true, half_carry: hc, carry: cy })
        },
        AluOp::And => {
            let res = a & v;
            (res, Flags { zero: res == 0, negative: false, half_carry: true, carry: false })
        },
        AluOp::Xor => {
            let res = a ^ v;
            (res, Flags { zero: res == 0, negative: false, half_carry: false, carry: false })
        },
        AluOp::Or => {
            let res = a | v;
            (res, Flags { zero: res == 0, negative: false, half_carry: false, carry: false })
        },
        AluOp::Cp => {
            let (res, cy, hc) = sub2_8bit(a, v);
            (a, Flags { zero: res == 0, negative: true, half_carry: hc, carry: cy })
        },
    }
}

/// Rotates or shifts a byte.
pub fn rotate(op: RotOp, v: u8, carry: bool) -> (r: (u8, bool))
    ensures
        r == spec_rotate(op, v, carry),
{
    let c: u8 = if carry { 1 } else { 0 };
    let left = v >= 0x80;
    let right = v % 2 == 1;
    match op {
        RotOp::Rlc => {
            assert((v << 1) | (v >> 7) == (v % 128) * 2 + v / 128) by (bit_vector);
            ((v << 1) | (v >> 7), left)
        },
        RotOp::Rrc => {
            assert((v >> 1) | (v << 7) == v / 2 + (v % 2) * 128) by (bit_vector);
            ((v >> 1) | (v << 7), right)
        },
        RotOp::Rl => {
            assert(c <= 1 ==> (v << 1) | c == (v % 128) * 2 + c) by (bit_vector);
            ((v << 1) | c, left)
        },
        RotOp::Rr => {
            assert(c <= 1 ==> (v >> 1) | (c << 7) == v / 2 + c * 128) by (bit_vector);
            ((v >> 1) | (c << 7), right)
        },
        RotOp::Sla => {
            assert(v << 1 == (v % 128) * 2) by (bit_vector);
            (v << 1, left)
        },
        RotOp::Sra => {
            assert((v >> 1) | (v & 0x80) == v / 2 + (v / 128) * 128) by (bit_vector);
            ((v >> 1) | (v & 0x80), right)
        },
        RotOp::Swap => {
            assert((v << 4) | (v >> 4) == (v % 16) * 16 + v / 16) by (bit_vector);
            ((v << 4) | (v >> 4), false)
        },
        RotOp::Srl => {
            assert(v >> 1 == v / 2) by (bit_vector);
            (v >> 1, right)
        },
    }
}

/// Adjusts A to packed decimal after an addition or a subtraction.
pub fn daa(a: u8, negative: bool, half_carry: bool, carry: bool) -> (r: (u8, bool))
    ensures
        r == spec_daa(a, negative, half_carry, carry),
{
    let mut adjust: u16 = 0;
    if half_carry || (!negative && a % 16 > 9) {
        adjust += 0x06;
    }
    let new_carry = carry || (!negative && a > 0x99);
    if new_carry {
        adjust += 0x60;
    }
    let new_value = if negative {
        ((a as u16 + 256 - adjust) % 256) as u8
    } else {
        ((a as u16 + adjust) % 256) as u8
    };
    (new_value, new_carry)
}

/// Two packed decimal digits.
pub open spec fn is_bcd(a: u8) -> bool {
    a % 16 <= 9 && a / 16 <= 9
}

/// The number that two packed decimal digits stand for.
pub open spec fn bcd_value(a: u8) -> int {
    10 * (a / 16) + a % 16
}

/// Adding two packed decimal bytes and adjusting the sum gives the packed
/// decimal of their sum modulo 100, with the carry set where the sum
/// reaches 100.
pub proof fn lemma_daa_after_add(a: u8, b: u8)
    requires
        is_bcd(a),
        is_bcd(b),
    ensures
        ({
            let sum = spec_apply(AluOp::Add, a, b, false);
            let adjusted = spec_daa(sum.0, sum.1.negative, sum.1.half_carry, sum.1.carry);
            &&& is_bcd(adjusted.0)
            &&& bcd_value(adjusted.0) == (bcd_value(a) + bcd_value(b)) % 100
            &&& adjusted.1 == (bcd_value(a) + bcd_value(b) >= 100)
        }),
{
    let raw: u8 = ((a + b) % 256) as u8;
    let h: bool = (a % 16) + (b % 16) > 0xf;
    let c: bool = a + b > 0xff;
    let high: bool = c || raw > 0x99;
    let res: u8 = ((raw + (if h || raw % 16 > 9 { 0x06int } else { 0 }) + (if high {
        0x60int
    } else {
        0
    })) % 256) as u8;
    assert(spec_apply(AluOp::Add, a, b, false).0 == raw);
    assert(spec_daa(raw, false, h, c) == (res, high));
    let x: u16 = a as u16;
    let y: u16 = b as u16;
    let sum: u16 = raw as u16;
    let out: u16 = res as u16;
    let low_fix: u16 = if h || sum % 16 > 9 { 6 } else { 0 };
    let high_fix: u16 = if high { 0x60 } else { 0 };
    let wide: u16 = (x + y) as u16;
    let nibbles: u16 = (x % 16 + y % 16) as u16;
    let fixed: u16 = (sum + low_fix + high_fix) as u16;
    let total: u16 = (10 * (x / 16) + x % 16 + 10 * (y / 16) + y % 16) as u16;
    let digits: u16 = (10 * (out / 16) + out % 16) as u16;
    assert(out % 16 <= 9 && out / 16 <= 9 && digits == total % 100 && (high_fix == 0x60 ==> total
        >= 100) && (total >= 100 ==> high_fix == 0x60)) by (bit_vector)
        requires
            x % 16 <= 9 && x / 16 <= 9 && y % 16 <= 9 && y / 16 <= 9,
            wide == x + y,
            nibbles == x % 16 + y % 16,
            sum == wide % 256,
            low_fix == (if nibbles > 15 || sum % 16 > 9 { 6u16 } else { 0u16 }),
            high_fix == (if wide > 255 || sum > 0x99 { 0x60u16 } else { 0u16 }),
            fixed == sum + low_fix + high_fix,
            out == fixed % 256,
            total == 10 * (x / 16) + x % 16 + 10 * (y / 16) + y % 16,
            digits == 10 * (out / 16) + out % 16,
    ;
}

} // verus!
