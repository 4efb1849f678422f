use gb_core::alu::{
    add2_16bit, add2_8bit, add3_8bit, apply, daa, rotate, signed_byte_to_u16, sub2_8bit,
    sub3_8bit,
};
use gb_core::instruction::{AluOp, RotOp};

#[test]
fn add8_sums_both_operands() {
    assert_eq!(add2_8bit(0x3a, 0x0c), (0x46, false, true));
    assert_eq!(add2_8bit(1, 2), (3, false, false));
    assert_eq!(add2_8bit(0xff, 0x01), (0x00, true, true));
    assert_eq!(add2_8bit(0xf0, 0x10), (0x00, true, false));
    assert_eq!(add2_8bit(0x08, 0x08), (0x10, false, true));
}

#[test]
fn add8_matches_arithmetic_for_all_bytes() {
    for a in 0u16..256 {
        for b in 0u16..256 {
            let (res, carry, half) = add2_8bit(a as u8, b as u8);
            assert_eq!(res as u16, (a + b) % 256);
            assert_eq!(carry, a + b > 255);
            assert_eq!(half, (a & 0xf) + (b & 0xf) > 0xf);
        }
    }
}

#[test]
fn add8_with_carry_joins_carries() {
    assert_eq!(add3_8bit(0xff, 0x00, 1), (0x00, true, true));
    assert_eq!(add3_8bit(0x0f, 0x00, 1), (0x10, false, true));
    assert_eq!(add3_8bit(0x10, 0x20, 0), (0x30, false, false));
    assert_eq!(add3_8bit(0xfe, 0x01, 1), (0x00, true, true));
}

#[test]
fn add16_half_carry_is_on_bit_11() {
    assert_eq!(add2_16bit(0x0fff, 0x0001), (0x1000, false, true));
    assert_eq!(add2_16bit(0x000f, 0x0001), (0x0010, false, false));
    assert_eq!(add2_16bit(0xffff, 0x0001), (0x0000, true, true));
    assert_eq!(add2_16bit(0x8000, 0x8000), (0x0000, true, false));
}

#[test]
fn sub8_borrows() {
    assert_eq!(sub2_8bit(0x10, 0x01), (0x0f, false, true));
    assert_eq!(sub2_8bit(0x00, 0x01), (0xff, true, true));
    assert_eq!(sub2_8bit(0x42, 0x42), (0x00, false, false));
    assert_eq!(sub2_8bit(0x20, 0x30), (0xf0, true, false));
}

#[test]
fn sub8_with_carry_joins_borrows() {
    assert_eq!(sub3_8bit(0x00, 0x00, 1), (0xff, true, true));
    assert_eq!(sub3_8bit(0x10, 0x0f, 1), (0x00, false, true));
    assert_eq!(sub3_8bit(0x05, 0x02, 1), (0x02, false, false));
}

#[test]
fn sign_extension() {
    assert_eq!(signed_byte_to_u16(0x05), 0x0005);
    assert_eq!(signed_byte_to_u16(0x7f), 0x007f);
    assert_eq!(signed_byte_to_u16(0x80), 0xff80);
    assert_eq!(signed_byte_to_u16(0xff), 0xffff);
}

#[test]
fn logic_operations_set_their_flags() {
    let (res, flags) = apply(AluOp::And, 0xf0, 0x3c, true);
    assert_eq!(res, 0x30);
    assert!(!flags.zero && !flags.negative && flags.half_carry && !flags.carry);
    let (res, flags) = apply(AluOp::Xor, 0xaa, 0xaa, true);
    assert_eq!(res, 0);
    assert!(flags.zero && !flags.negative && !flags.half_carry && !flags.carry);
    let (res, flags) = apply(AluOp::Or, 0x0f, 0xf0, false);
    assert_eq!(res, 0xff);
    assert!(!flags.zero && !flags.half_carry && !flags.carry);
}

#[test]
fn compare_discards_the_difference() {
    let (res, flags) = apply(AluOp::Cp, 0x10, 0x20, false);
    assert_eq!(res, 0x10);
    assert!(!flags.zero && flags.negative && !flags.half_carry && flags.carry);
    let (res, flags) = apply(AluOp::Cp, 0x42, 0x42, false);
    assert_eq!(res, 0x42);
    assert!(flags.zero && flags.negative);
}

#[test]
fn add_and_subtract_with_carry_use_the_carry() {
    let (res, flags) = apply(AluOp::Adc, 0x0f, 0x00, true);
    assert_eq!(res, 0x10);
    assert!(flags.half_carry && !flags.carry && !flags.negative);
    let (res, flags) = apply(AluOp::Sbc, 0x10, 0x0f, true);
    assert_eq!(res, 0x00);
    assert!(flags.zero && flags.negative && flags.half_carry && !flags.carry);
    let (res, _) = apply(AluOp::Sub, 0x10, 0x0f, true);
    assert_eq!(res, 0x01);
}

#[test]
fn rotates_and_shifts_write_the_shifted_value() {
    assert_eq!(rotate(RotOp::Rlc, 0x85, false), (0x0b, true));
    assert_eq!(rotate(RotOp::Rrc, 0x01, false), (0x80, true));
    assert_eq!(rotate(RotOp::Rl, 0x80, true), (0x01, true));
    assert_eq!(rotate(RotOp::Rl, 0x40, false), (0x80, false));
    assert_eq!(rotate(RotOp::Rr, 0x01, false), (0x00, true));
    assert_eq!(rotate(RotOp::Rr, 0x02, true), (0x81, false));
    assert_eq!(rotate(RotOp::Sla, 0xc1, true), (0x82, true));
    assert_eq!(rotate(RotOp::Sra, 0x81, false), (0xc0, true));
    assert_eq!(rotate(RotOp::Sra, 0x7e, false), (0x3f, false));
    assert_eq!(rotate(RotOp::Swap, 0xa5, true), (0x5a, false));
    assert_eq!(rotate(RotOp::Srl, 0x81, false), (0x40, true));
}

#[test]
fn decimal_adjust_after_addition() {
    assert_eq!(daa(0x7d, false, false, false), (0x83, false));
    assert_eq!(daa(0x9a, false, false, false), (0x00, true));
    assert_eq!(daa(0x12, false, true, false), (0x18, false));
    assert_eq!(daa(0x00, false, false, true), (0x60, true));
}

#[test]
fn decimal_adjust_after_subtraction() {
    assert_eq!(daa(0x0f, true, true, false), (0x09, false));
    assert_eq!(daa(0xf0, true, false, true), (0x90, true));
    assert_eq!(daa(0x45, true, false, false), (0x45, false));
}

#[test]
fn decimal_adjust_gives_packed_decimal_sums() {
    for x in 0u32..100 {
        for y in 0u32..100 {
            let a = ((x / 10) * 16 + x % 10) as u8;
            let b = ((y / 10) * 16 + y % 10) as u8;
            let (sum, flags) = apply(AluOp::Add, a, b, false);
            let (res, carry) = daa(sum, flags.negative, flags.half_carry, flags.carry);
            let expected = (x + y) % 100;
            assert_eq!(res as u32, (expected / 10) * 16 + expected % 10);
            assert_eq!(carry, x + y >= 100);
        }
    }
}
