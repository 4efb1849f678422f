use gb_core::cartridge::Cartridge;
use gb_core::cpu::{Cpu, CpuError};
use gb_core::instruction::{decode, decode_cb, AluOp, CbInstr, Cond, Instr, RotOp, Target, Wide};
use gb_core::irq::Irq;
use gb_core::joypad::JoyPad;
use gb_core::mmu::Mmu;
use gb_core::ppu::Ppu;
use gb_core::sound::Apu;

const CODE: u16 = 0xc000;

fn machine(program: &[u8]) -> (Cpu, Mmu) {
    let mut mmu =
        Mmu::new(Apu::new(), Irq::new(), Ppu::new(), JoyPad::new(), Cartridge::no_boot(&[]));
    for (i, byte) in program.iter().enumerate() {
        mmu.write_byte(CODE + i as u16, *byte);
    }
    let mut cpu = Cpu::new();
    let mut regs = cpu.registers();
    regs.set_pc(CODE);
    regs.set_sp(0xfffe);
    cpu.set_registers(regs);
    (cpu, mmu)
}

#[test]
fn push_pop() {
    let (mut cpu, mut mmu) = machine(&[]);
    let mut regs = cpu.registers();
    regs.set_sp(0xc000 + 100);
    cpu.set_registers(regs);

    let values = vec![0, 1, 2, 3, 4, 5];
    for val in values.iter() {
        cpu.push(*val, &mut mmu);
    }

    let mut popped_values = Vec::new();
    for _ in 0..values.len() {
        let val = cpu.pop(&mmu);
        popped_values.push(val);
    }
    popped_values.reverse();

    assert_eq!(values, popped_values);
    assert_eq!(cpu.registers().sp(), 0xc000 + 100);
}

#[test]
fn push_stores_low_byte_first_below_the_stack_pointer() {
    let (mut cpu, mut mmu) = machine(&[]);
    cpu.push(0x1234, &mut mmu);
    assert_eq!(cpu.registers().sp(), 0xfffc);
    assert_eq!(mmu.read_byte(0xfffc), 0x34);
    assert_eq!(mmu.read_byte(0xfffd), 0x12);
    assert_eq!(cpu.pop(&mmu), 0x1234);
    assert_eq!(cpu.registers().sp(), 0xfffe);
}

#[test]
fn add_sets_flags() {
    let (mut cpu, mut mmu) = machine(&[0x80]);
    let mut regs = cpu.registers();
    regs.set_a(0x3a);
    regs.set_b(0x0c);
    cpu.set_registers(regs);
    assert_eq!(cpu.step(&mut mmu), Ok(4));
    let regs = cpu.registers();
    assert_eq!(regs.a(), 0x46);
    assert!(!regs.zero_flag());
    assert!(!regs.negative_flag());
    assert!(regs.half_carry_flag());
    assert!(!regs.carry_flag());
}

#[test]
fn daa_after_bcd_add() {
    let (mut cpu, mut mmu) = machine(&[0x80, 0x27]);
    let mut regs = cpu.registers();
    regs.set_a(0x45);
    regs.set_b(0x38);
    cpu.set_registers(regs);
    assert_eq!(cpu.step(&mut mmu), Ok(4));
    assert_eq!(cpu.registers().a(), 0x7d);
    assert!(!cpu.registers().half_carry_flag());
    assert_eq!(cpu.step(&mut mmu), Ok(4));
    assert_eq!(cpu.registers().a(), 0x83);
    assert!(!cpu.registers().zero_flag());
    assert!(!cpu.registers().carry_flag());
}

#[test]
fn conditional_jump_cycles() {
    let (mut cpu, mut mmu) = machine(&[0x28, 0x05]);
    let mut regs = cpu.registers();
    regs.set_zero_flag(true);
    cpu.set_registers(regs);
    assert_eq!(cpu.step(&mut mmu), Ok(12));
    assert_eq!(cpu.registers().pc(), CODE + 7);

    let (mut cpu, mut mmu) = machine(&[0x28, 0x05]);
    assert_eq!(cpu.step(&mut mmu), Ok(8));
    assert_eq!(cpu.registers().pc(), CODE + 2);
}

#[test]
fn relative_jump_backwards() {
    let (mut cpu, mut mmu) = machine(&[0x00, 0x00, 0x18, 0xfc]);
    cpu.step(&mut mmu).unwrap();
    cpu.step(&mut mmu).unwrap();
    assert_eq!(cpu.step(&mut mmu), Ok(12));
    assert_eq!(cpu.registers().pc(), CODE);
}

#[test]
fn illegal_opcodes_are_reported() {
    for byte in [0xd3u8, 0xdb, 0xdd, 0xe3, 0xe4, 0xeb, 0xec, 0xed, 0xf4, 0xfc, 0xfd] {
        let (mut cpu, mut mmu) = machine(&[byte]);
        assert_eq!(cpu.step(&mut mmu), Err(CpuError::InvalidOpcode { byte, pc: CODE }));
        assert_eq!(cpu.registers().pc(), CODE + 1);
    }
    let mut illegal = 0;
    for op in 0..=255u8 {
        if decode(op) == Instr::Illegal {
            illegal += 1;
        }
    }
    assert_eq!(illegal, 11);
}

#[test]
fn decode_tables() {
    assert_eq!(decode(0x00), Instr::Nop);
    assert_eq!(decode(0x76), Instr::Halt);
    assert_eq!(decode(0x41), Instr::Ld(Target::B, Target::C));
    assert_eq!(decode(0x7e), Instr::Ld(Target::A, Target::HlIndirect));
    assert_eq!(decode(0x80), Instr::Alu(AluOp::Add, Target::B));
    assert_eq!(decode(0xbf), Instr::Alu(AluOp::Cp, Target::A));
    assert_eq!(decode(0x31), Instr::LdWide(Wide::SP));
    assert_eq!(decode(0x28), Instr::Jr(Cond::Zero));
    assert_eq!(decode(0xc9), Instr::Ret(Cond::Always));
    assert_eq!(decode(0xff), Instr::Rst(0x38));
    assert_eq!(decode(0xcb), Instr::Prefix);
    assert_eq!(decode_cb(0x00), CbInstr::Rot(RotOp::Rlc, Target::B));
    assert_eq!(decode_cb(0x3f), CbInstr::Rot(RotOp::Srl, Target::A));
    assert_eq!(decode_cb(0x46), CbInstr::TestBit(0, Target::HlIndirect));
    assert_eq!(decode_cb(0x86), CbInstr::ResetBit(0, Target::HlIndirect));
    assert_eq!(decode_cb(0xff), CbInstr::SetBit(7, Target::A));
}

#[test]
fn loads_move_bytes_without_flags() {
    let (mut cpu, mut mmu) = machine(&[0x3e, 0x05, 0x47, 0x21, 0x00, 0xd0, 0x70, 0x4e, 0x36, 0x77, 0x7e]);
    assert_eq!(cpu.step(&mut mmu), Ok(8));
    assert_eq!(cpu.step(&mut mmu), Ok(4));
    assert_eq!(cpu.step(&mut mmu), Ok(12));
    assert_eq!(cpu.step(&mut mmu), Ok(8));
    assert_eq!(mmu.read_byte(0xd000), 0x05);
    assert_eq!(cpu.step(&mut mmu), Ok(8));
    assert_eq!(cpu.registers().c(), 0x05);
    assert_eq!(cpu.step(&mut mmu), Ok(12));
    assert_eq!(cpu.step(&mut mmu), Ok(8));
    assert_eq!(cpu.registers().a(), 0x77);
    assert_eq!(cpu.registers().f(), 0);
    assert_eq!(cpu.registers().hl(), 0xd000);
}

#[test]
fn pointer_loads_move_hl() {
    let (mut cpu, mut mmu) = machine(&[0x21, 0x00, 0xd0, 0x3e, 0x11, 0x22, 0x32, 0x2a, 0x3a]);
    for _ in 0..2 {
        cpu.step(&mut mmu).unwrap();
    }
    assert_eq!(cpu.step(&mut mmu), Ok(8));
    assert_eq!(cpu.registers().hl(), 0xd001);
    assert_eq!(mmu.read_byte(0xd000), 0x11);
    assert_eq!(cpu.step(&mut mmu), Ok(8));
    assert_eq!(cpu.registers().hl(), 0xd000);
    assert_eq!(mmu.read_byte(0xd001), 0x11);
    assert_eq!(cpu.step(&mut mmu), Ok(8));
    assert_eq!(cpu.registers().hl(), 0xd001);
    assert_eq!(cpu.step(&mut mmu), Ok(8));
    assert_eq!(cpu.registers().hl(), 0xd000);
    assert_eq!(cpu.registers().a(), 0x11);
}

#[test]
fn high_page_loads() {
    let (mut cpu, mut mmu) = machine(&[0x3e, 0x42, 0xe0, 0x80, 0x0e, 0x81, 0xe2, 0x3e, 0x00, 0xf0, 0x81, 0xf2, 0xea, 0x00, 0xd0, 0xfa, 0x80, 0xff]);
    cpu.step(&mut mmu).unwrap();
    assert_eq!(cpu.step(&mut mmu), Ok(12));
    assert_eq!(mmu.read_byte(0xff80), 0x42);
    cpu.step(&mut mmu).unwrap();
    assert_eq!(cpu.step(&mut mmu), Ok(8));
    assert_eq!(mmu.read_byte(0xff81), 0x42);
    cpu.step(&mut mmu).unwrap();
    assert_eq!(cpu.step(&mut mmu), Ok(12));
    assert_eq!(cpu.registers().a(), 0x42);
    assert_eq!(cpu.step(&mut mmu), Ok(8));
    assert_eq!(cpu.step(&mut mmu), Ok(16));
    assert_eq!(mmu.read_byte(0xd000), 0x42);
    assert_eq!(cpu.step(&mut mmu), Ok(16));
    assert_eq!(cpu.registers().a(), 0x42);
}

#[test]
fn increments_and_decrements() {
    let (mut cpu, mut mmu) = machine(&[0x3c, 0x3d, 0x3d, 0x03, 0x0b, 0x0b, 0x21, 0x00, 0xd0, 0x34, 0x35]);
    let mut regs = cpu.registers();
    regs.set_a(0x0f);
    regs.set_carry_flag(true);
    cpu.set_registers(regs);
    assert_eq!(cpu.step(&mut mmu), Ok(4));
    assert_eq!(cpu.registers().a(), 0x10);
    assert_eq!(cpu.registers().f(), 0x30);
    cpu.step(&mut mmu).unwrap();
    assert_eq!(cpu.registers().a(), 0x0f);
    assert_eq!(cpu.registers().f(), 0x70);
    cpu.step(&mut mmu).unwrap();
    assert_eq!(cpu.registers().a(), 0x0e);
    assert_eq!(cpu.registers().f(), 0x50);
    assert_eq!(cpu.step(&mut mmu), Ok(8));
    assert_eq!(cpu.registers().bc(), 1);
    cpu.step(&mut mmu).unwrap();
    cpu.step(&mut mmu).unwrap();
    assert_eq!(cpu.registers().bc(), 0xffff);
    assert_eq!(cpu.registers().f(), 0x50);
    cpu.step(&mut mmu).unwrap();
    assert_eq!(cpu.step(&mut mmu), Ok(12));
    assert_eq!(mmu.read_byte(0xd000), 1);
    assert_eq!(cpu.step(&mut mmu), Ok(12));
    assert_eq!(mmu.read_byte(0xd000), 0);
    assert_eq!(cpu.registers().f(), 0xd0);
}

#[test]
fn wide_additions() {
    let (mut cpu, mut mmu) = machine(&[0x09, 0xe8, 0xff, 0xf8, 0x02]);
    let mut regs = cpu.registers();
    regs.set_hl(0x8a23);
    regs.set_bc(0x0605);
    regs.set_zero_flag(true);
    regs.set_sp(0x0000);
    cpu.set_registers(regs);
    assert_eq!(cpu.step(&mut mmu), Ok(8));
    assert_eq!(cpu.registers().hl(), 0x9028);
    assert_eq!(cpu.registers().f(), 0xa0);
    assert_eq!(cpu.step(&mut mmu), Ok(16));
    assert_eq!(cpu.registers().sp(), 0xffff);
    assert_eq!(cpu.registers().f(), 0x00);
    assert_eq!(cpu.step(&mut mmu), Ok(12));
    assert_eq!(cpu.registers().hl(), 0x0001);
    assert_eq!(cpu.registers().f(), 0x30);
    assert_eq!(cpu.registers().sp(), 0xffff);
}

#[test]
fn accumulator_rotates_clear_zero() {
    let (mut cpu, mut mmu) = machine(&[0x07, 0x17, 0x0f, 0x1f]);
    let mut regs = cpu.registers();
    regs.set_a(0x80);
    regs.set_zero_flag(true);
    cpu.set_registers(regs);
    assert_eq!(cpu.step(&mut mmu), Ok(4));
    assert_eq!(cpu.registers().a(), 0x01);
    assert_eq!(cpu.registers().f(), 0x10);
    cpu.step(&mut mmu).unwrap();
    assert_eq!(cpu.registers().a(), 0x03);
    assert_eq!(cpu.registers().f(), 0x00);
    cpu.step(&mut mmu).unwrap();
    assert_eq!(cpu.registers().a(), 0x81);
    assert_eq!(cpu.registers().f(), 0x10);
    cpu.step(&mut mmu).unwrap();
    assert_eq!(cpu.registers().a(), 0xc0);
    assert_eq!(cpu.registers().f(), 0x10);
}

#[test]
fn second_table_instructions() {
    let (mut cpu, mut mmu) = machine(&[
        0xcb, 0x37, 0xcb, 0x7f, 0xcb, 0x47, 0xcb, 0xc7, 0xcb, 0xa7, 0x21, 0x00, 0xd0, 0xcb, 0xfe,
        0xcb, 0x7e, 0xcb, 0x3e, 0xcb, 0x38,
    ]);
    let mut regs = cpu.registers();
    regs.set_a(0xa5);
    regs.set_b(0x01);
    regs.set_carry_flag(true);
    cpu.set_registers(regs);
    assert_eq!(cpu.step(&mut mmu), Ok(8));
    assert_eq!(cpu.registers().a(), 0x5a);
    assert_eq!(cpu.registers().f(), 0x00);
    assert_eq!(cpu.step(&mut mmu), Ok(8));
    assert_eq!(cpu.registers().f(), 0xa0);
    cpu.step(&mut mmu).unwrap();
    assert_eq!(cpu.registers().f(), 0xa0);
    cpu.step(&mut mmu).unwrap();
    assert_eq!(cpu.registers().a(), 0x5b);
    cpu.step(&mut mmu).unwrap();
    assert_eq!(cpu.registers().a(), 0x4b);
    assert_eq!(cpu.registers().f(), 0xa0);
    cpu.step(&mut mmu).unwrap();
    assert_eq!(cpu.step(&mut mmu), Ok(16));
    assert_eq!(mmu.read_byte(0xd000), 0x80);
    assert_eq!(cpu.step(&mut mmu), Ok(12));
    assert_eq!(cpu.registers().f(), 0x20);
    assert_eq!(cpu.step(&mut mmu), Ok(16));
    assert_eq!(mmu.read_byte(0xd000), 0x40);
    assert_eq!(cpu.registers().f(), 0x00);
    assert_eq!(cpu.step(&mut mmu), Ok(8));
    assert_eq!(cpu.registers().b(), 0x00);
    assert_eq!(cpu.registers().f(), 0x90);
}

#[test]
fn calls_and_returns() {
    let (mut cpu, mut mmu) = machine(&[0xcd, 0x10, 0xc0, 0x00]);
    mmu.write_byte(0xc010, 0xc0);
    mmu.write_byte(0xc011, 0xc8);
    mmu.write_byte(0xc012, 0xc9);
    assert_eq!(cpu.step(&mut mmu), Ok(24));
    assert_eq!(cpu.registers().pc(), 0xc010);
    assert_eq!(cpu.registers().sp(), 0xfffc);
    assert_eq!(mmu.read_word(0xfffc), 0xc003);
    assert_eq!(cpu.step(&mut mmu), Ok(20));
    assert_eq!(cpu.registers().pc(), 0xc003);
    assert_eq!(cpu.registers().sp(), 0xfffe);

    let (mut cpu, mut mmu) = machine(&[0xcc, 0x10, 0xc0, 0xc8, 0xc9]);
    assert_eq!(cpu.step(&mut mmu), Ok(12));
    assert_eq!(cpu.registers().pc(), CODE + 3);
    assert_eq!(cpu.step(&mut mmu), Ok(8));
    cpu.push(0x1234, &mut mmu);
    assert_eq!(cpu.step(&mut mmu), Ok(16));
    assert_eq!(cpu.registers().pc(), 0x1234);
}

#[test]
fn jumps_and_restarts() {
    let (mut cpu, mut mmu) = machine(&[0xc3, 0x10, 0xc0]);
    mmu.write_byte(0xc010, 0xda);
    mmu.write_byte(0xc011, 0x00);
    mmu.write_byte(0xc012, 0xd0);
    mmu.write_byte(0xc013, 0xe9);
    assert_eq!(cpu.step(&mut mmu), Ok(16));
    assert_eq!(cpu.registers().pc(), 0xc010);
    assert_eq!(cpu.step(&mut mmu), Ok(12));
    assert_eq!(cpu.registers().pc(), 0xc013);
    let mut regs = cpu.registers();
    regs.set_hl(0xc020);
    cpu.set_registers(regs);
    mmu.write_byte(0xc020, 0xef);
    assert_eq!(cpu.step(&mut mmu), Ok(4));
    assert_eq!(cpu.registers().pc(), 0xc020);
    assert_eq!(cpu.step(&mut mmu), Ok(16));
    assert_eq!(cpu.registers().pc(), 0x0028);
    assert_eq!(mmu.read_word(cpu.registers().sp()), 0xc021);
}

#[test]
fn pop_af_masks_the_low_nibble() {
    let (mut cpu, mut mmu) = machine(&[0x01, 0xff, 0x12, 0xc5, 0xf1, 0xf5, 0xd1]);
    cpu.step(&mut mmu).unwrap();
    assert_eq!(cpu.step(&mut mmu), Ok(16));
    assert_eq!(cpu.step(&mut mmu), Ok(12));
    assert_eq!(cpu.registers().af(), 0x12f0);
    assert_eq!(cpu.registers().f() & 0x0f, 0);
    cpu.step(&mut mmu).unwrap();
    cpu.step(&mut mmu).unwrap();
    assert_eq!(cpu.registers().de(), 0x12f0);
    assert_eq!(cpu.registers().sp(), 0xfffe);
}

#[test]
fn flag_instructions() {
    let (mut cpu, mut mmu) = machine(&[0x37, 0x3f, 0x3f, 0x2f]);
    let mut regs = cpu.registers();
    regs.set_a(0x35);
    regs.set_flags(true, true, true, false);
    cpu.set_registers(regs);
    cpu.step(&mut mmu).unwrap();
    assert_eq!(cpu.registers().f(), 0x90);
    cpu.step(&mut mmu).unwrap();
    assert_eq!(cpu.registers().f(), 0x80);
    cpu.step(&mut mmu).unwrap();
    assert_eq!(cpu.registers().f(), 0x90);
    cpu.step(&mut mmu).unwrap();
    assert_eq!(cpu.registers().a(), 0xca);
    assert_eq!(cpu.registers().f(), 0xf0);
}

#[test]
fn store_stack_pointer() {
    let (mut cpu, mut mmu) = machine(&[0x08, 0x00, 0xd0, 0x21, 0x34, 0x12, 0xf9]);
    assert_eq!(cpu.step(&mut mmu), Ok(20));
    assert_eq!(mmu.read_word(0xd000), 0xfffe);
    cpu.step(&mut mmu).unwrap();
    assert_eq!(cpu.step(&mut mmu), Ok(8));
    assert_eq!(cpu.registers().sp(), 0x1234);
}

#[test]
fn interrupt_service() {
    let (mut cpu, mut mmu) = machine(&[0xfb, 0x00]);
    mmu.write_byte(0xffff, 0x05);
    assert_eq!(cpu.step(&mut mmu), Ok(4));
    assert!(cpu.ime());
    mmu.write_byte(0xff0f, 0x05);
    assert_eq!(cpu.step(&mut mmu), Ok(20));
    assert_eq!(cpu.registers().pc(), 0x0040);
    assert!(!cpu.ime());
    assert_eq!(mmu.read_byte(0xff0f), 0x04);
    assert_eq!(mmu.read_word(cpu.registers().sp()), CODE + 1);
    assert_eq!(cpu.registers().sp(), 0xfffc);
    cpu.set_ime(true);
    assert_eq!(cpu.step(&mut mmu), Ok(20));
    assert_eq!(cpu.registers().pc(), 0x0050);
    assert_eq!(mmu.read_byte(0xff0f), 0x00);
}

#[test]
fn interrupts_wait_for_the_master_enable() {
    let (mut cpu, mut mmu) = machine(&[0x00, 0xf3, 0x00]);
    mmu.write_byte(0xffff, 0x1f);
    mmu.write_byte(0xff0f, 0x10);
    assert_eq!(cpu.step(&mut mmu), Ok(4));
    assert_eq!(cpu.registers().pc(), CODE + 1);
    cpu.set_ime(true);
    assert_eq!(cpu.step(&mut mmu), Ok(20));
    assert_eq!(cpu.registers().pc(), 0x0060);
    let (mut cpu, mut mmu) = machine(&[0xfb, 0xf3, 0x00]);
    mmu.write_byte(0xffff, 0x01);
    cpu.step(&mut mmu).unwrap();
    cpu.step(&mut mmu).unwrap();
    assert!(!cpu.ime());
    mmu.write_byte(0xff0f, 0x01);
    assert_eq!(cpu.step(&mut mmu), Ok(4));
    assert_eq!(cpu.registers().pc(), CODE + 3);
}

#[test]
fn disabled_sources_are_not_served() {
    let (mut cpu, mut mmu) = machine(&[0x00, 0x00]);
    cpu.set_ime(true);
    mmu.write_byte(0xffff, 0x02);
    mmu.write_byte(0xff0f, 0x05);
    assert_eq!(cpu.step(&mut mmu), Ok(4));
    assert_eq!(cpu.registers().pc(), CODE + 1);
    assert_eq!(mmu.read_byte(0xff0f), 0x05);
    assert!(cpu.ime());
}

#[test]
fn halt_waits_for_an_enabled_request() {
    let (mut cpu, mut mmu) = machine(&[0x76, 0x3c]);
    mmu.write_byte(0xffff, 0x04);
    assert_eq!(cpu.step(&mut mmu), Ok(4));
    assert!(cpu.halted());
    for _ in 0..10 {
        assert_eq!(cpu.step(&mut mmu), Ok(4));
        assert!(cpu.halted());
        assert_eq!(cpu.registers().pc(), CODE + 1);
    }
    mmu.write_byte(0xff0f, 0x01);
    assert_eq!(cpu.step(&mut mmu), Ok(4));
    assert!(cpu.halted());
    mmu.write_byte(0xff0f, 0x04);
    assert_eq!(cpu.step(&mut mmu), Ok(4));
    assert!(!cpu.halted());
    assert_eq!(cpu.registers().a(), 1);
    assert_eq!(cpu.registers().pc(), CODE + 2);
    assert_eq!(mmu.read_byte(0xff0f), 0x04);
}

#[test]
fn return_from_interrupt_enables_interrupts() {
    let (mut cpu, mut mmu) = machine(&[0xd9]);
    cpu.push(0xc123, &mut mmu);
    assert_eq!(cpu.step(&mut mmu), Ok(16));
    assert_eq!(cpu.registers().pc(), 0xc123);
    assert!(cpu.ime());
}

#[test]
fn every_legal_opcode_takes_4_to_24_cycles() {
    for op in 0..=255u8 {
        let (mut cpu, mut mmu) = machine(&[op, 0x00, 0xd0]);
        match cpu.step(&mut mmu) {
            Ok(cycles) => {
                assert!(cycles >= 4 && cycles <= 24 && cycles % 4 == 0);
                assert!(decode(op) != Instr::Illegal);
            }
            Err(CpuError::InvalidOpcode { byte, pc }) => {
                assert_eq!(byte, op);
                assert_eq!(pc, CODE);
                assert_eq!(decode(op), Instr::Illegal);
            }
        }
        assert_eq!(cpu.registers().f() & 0x0f, 0);
    }
}

#[test]
fn execute_takes_decoded_instructions() {
    let (mut cpu, mut mmu) = machine(&[]);
    let mut regs = cpu.registers();
    regs.set_a(0xf0);
    regs.set_c(0x0f);
    cpu.set_registers(regs);
    assert_eq!(cpu.execute(Instr::Alu(AluOp::Or, Target::C), &mut mmu), 4);
    assert_eq!(cpu.registers().a(), 0xff);
    assert_eq!(cpu.execute(Instr::Rlca, &mut mmu), 4);
    assert_eq!(cpu.registers().a(), 0xff);
    assert!(cpu.registers().carry_flag());
    assert_eq!(cpu.execute(Instr::Illegal, &mut mmu), 0);
    assert_eq!(cpu.inc_8bit(0xff), 0);
    assert!(cpu.registers().zero_flag() && cpu.registers().half_carry_flag());
    assert_eq!(cpu.dec_8bit(0x00), 0xff);
    assert!(cpu.registers().negative_flag() && cpu.registers().half_carry_flag());
    assert_eq!(cpu.fetch_byte(&mmu), 0x00);
    assert_eq!(cpu.registers().pc(), CODE + 1);
    assert_eq!(cpu.fetch_word(&mmu), 0x0000);
    assert_eq!(cpu.registers().pc(), CODE + 3);
}
