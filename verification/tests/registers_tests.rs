use gb_core::registers::Registers;

#[test]
fn new_registers_are_cleared() {
    let r = Registers::new();
    assert_eq!(r.af(), 0);
    assert_eq!(r.bc(), 0);
    assert_eq!(r.de(), 0);
    assert_eq!(r.hl(), 0);
    assert_eq!(r.sp(), 0);
    assert_eq!(r.pc(), 0);
}

#[test]
fn post_boot_registers() {
    let r = Registers::no_boot();
    assert_eq!(r.pc(), 0x0100);
    assert_eq!(r.sp(), 0xfffe);
    assert_eq!(r.af(), 0x01b0);
    assert_eq!(r.bc(), 0x0013);
    assert_eq!(r.de(), 0x00d8);
    assert_eq!(r.hl(), 0x014d);
    assert!(r.zero_flag() && !r.negative_flag() && r.half_carry_flag() && r.carry_flag());
}

#[test]
fn each_byte_register_reads_back_its_own_value() {
    let mut r = Registers::new();
    r.set_a(1);
    r.set_b(2);
    r.set_c(3);
    r.set_d(4);
    r.set_e(5);
    r.set_h(6);
    r.set_l(7);
    assert_eq!((r.a(), r.b(), r.c(), r.d(), r.e(), r.h(), r.l()), (1, 2, 3, 4, 5, 6, 7));
    assert_eq!(r.bc(), 0x0203);
    assert_eq!(r.de(), 0x0405);
    assert_eq!(r.hl(), 0x0607);
}

#[test]
fn pairs_round_trip() {
    let mut r = Registers::new();
    for x in [0u16, 1, 0x00ff, 0x0100, 0x1234, 0xabcd, 0xffff] {
        r.set_bc(x);
        assert_eq!(r.bc(), x);
        r.set_de(x);
        assert_eq!(r.de(), x);
        r.set_hl(x);
        assert_eq!(r.hl(), x);
    }
    r.set_bc(0x1234);
    assert_eq!((r.b(), r.c()), (0x12, 0x34));
}

#[test]
fn pairs_round_trip_for_every_word() {
    let mut r = Registers::new();
    for x in 0u32..65536 {
        let x = x as u16;
        r.set_hl(x);
        assert_eq!(r.hl(), x);
        r.set_af(x);
        assert_eq!(r.af(), x & 0xfff0);
    }
}

#[test]
fn af_drops_the_low_nibble_of_f() {
    let mut r = Registers::new();
    r.set_af(0x12ff);
    assert_eq!(r.af(), 0x12f0);
    assert_eq!(r.a(), 0x12);
    assert_eq!(r.f(), 0xf0);
    assert!(r.zero_flag() && r.negative_flag() && r.half_carry_flag() && r.carry_flag());
    r.set_af(0x000f);
    assert_eq!(r.af(), 0x0000);
    assert_eq!(r.f() & 0x0f, 0);
}

#[test]
fn flags_sit_in_the_high_nibble_of_f() {
    let mut r = Registers::new();
    r.set_zero_flag(true);
    assert_eq!(r.f(), 0x80);
    r.set_negative_flag(true);
    assert_eq!(r.f(), 0xc0);
    r.set_half_carry_flag(true);
    assert_eq!(r.f(), 0xe0);
    r.set_carry_flag(true);
    assert_eq!(r.f(), 0xf0);
    r.set_zero_flag(false);
    assert_eq!(r.f(), 0x70);
    assert!(!r.zero_flag() && r.negative_flag() && r.half_carry_flag() && r.carry_flag());
    r.set_flags(true, false, false, true);
    assert_eq!(r.f(), 0x90);
}

#[test]
fn program_counter_wraps() {
    let mut r = Registers::new();
    r.set_pc(0xfffe);
    r.inc_pc(1);
    assert_eq!(r.pc(), 0xffff);
    r.inc_pc(1);
    assert_eq!(r.pc(), 0x0000);
    r.set_pc(0x0100);
    r.inc_pc(0xfffe);
    assert_eq!(r.pc(), 0x00fe);
    r.set_sp(0xfffe);
    assert_eq!(r.sp(), 0xfffe);
}
