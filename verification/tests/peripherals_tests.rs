use gb_core::cartridge::Cartridge;
use gb_core::irq::Irq;
use gb_core::joypad::{Button, JoyPad};
use gb_core::timer::Timer;

#[test]
fn cartridge_boot_program_shadows_first_page() {
    let boot = vec![0xaau8; 0x100];
    let game = vec![0x55u8; 0x8000];
    let mut c = Cartridge::new(&boot, &game);
    assert_eq!(c.read_byte(0x0000), 0xaa);
    assert_eq!(c.read_byte(0x00ff), 0xaa);
    assert_eq!(c.read_byte(0x0100), 0x55);
    assert_eq!(c.read_byte(0x7fff), 0x55);
    c.write_byte(0xff50, 0x01);
    assert_eq!(c.read_byte(0x0000), 0x55);
    assert_eq!(c.read_byte(0x00ff), 0x55);
    c.write_byte(0xff50, 0x00);
    assert_eq!(c.read_byte(0x0000), 0x55);
}

#[test]
fn cartridge_ignores_writes_to_rom() {
    let game = vec![0x11u8; 0x8000];
    let mut c = Cartridge::no_boot(&game);
    c.write_byte(0x0000, 0x99);
    c.write_byte(0x4000, 0x99);
    c.write_byte(0x7fff, 0x99);
    assert_eq!(c.read_byte(0x0000), 0x11);
    assert_eq!(c.read_byte(0x4000), 0x11);
    assert_eq!(c.read_byte(0x7fff), 0x11);
}

#[test]
fn cartridge_pads_and_cuts_images() {
    let short = vec![1u8, 2, 3];
    let c = Cartridge::no_boot(&short);
    assert_eq!(c.read_byte(0), 1);
    assert_eq!(c.read_byte(2), 3);
    assert_eq!(c.read_byte(3), 0);
    assert_eq!(c.read_byte(0x7fff), 0);
    let mut long = vec![7u8; 0x9000];
    long[0x7fff] = 8;
    let c = Cartridge::no_boot(&long);
    assert_eq!(c.read_byte(0x7fff), 8);
    assert_eq!(c.read_byte(0x8000), 0xff);
    let c = Cartridge::new(&[9u8; 0x200], &short);
    assert_eq!(c.read_byte(0xff), 9);
    assert_eq!(c.read_byte(0x100), 0);
}

#[test]
fn irq_setters_or_their_bits() {
    let mut irq = Irq::new();
    assert_eq!(irq.interrupt_flag(), 0);
    irq.vblank_interrupt();
    assert_eq!(irq.interrupt_flag(), 0x01);
    irq.lcd_stat_interrupt();
    assert_eq!(irq.interrupt_flag(), 0x03);
    irq.timer_interrupt();
    assert_eq!(irq.interrupt_flag(), 0x07);
    irq.serial_interrupt();
    assert_eq!(irq.interrupt_flag(), 0x0f);
    irq.joypad_interrupt();
    assert_eq!(irq.interrupt_flag(), 0x1f);
    irq.set_interrupt_flag(0x04);
    irq.timer_interrupt();
    assert_eq!(irq.interrupt_flag(), 0x04);
}

#[test]
fn timer_overflow_reloads_and_interrupts() {
    let mut irq = Irq::new();
    let mut timer = Timer::new();
    timer.write_byte(0xff07, 0x05);
    timer.write_byte(0xff06, 0xab);
    timer.write_byte(0xff05, 0xff);
    timer.step(16, &mut irq);
    assert_eq!(timer.read_byte(0xff05), 0xab);
    assert_eq!(irq.interrupt_flag() & 0x04, 0x04);
}

#[test]
fn timer_counts_every_multiple_of_its_period() {
    let mut irq = Irq::new();
    let mut timer = Timer::new();
    timer.write_byte(0xff07, 0x05);
    timer.step(255, &mut irq);
    assert_eq!(timer.read_byte(0xff05), 15);
    timer.step(1, &mut irq);
    assert_eq!(timer.read_byte(0xff05), 16);
    assert_eq!(irq.interrupt_flag(), 0);
}

#[test]
fn timer_periods_follow_tac() {
    for (tac, period) in [(0x04u8, 1024u32), (0x05, 16), (0x06, 64), (0x07, 256)] {
        let mut irq = Irq::new();
        let mut timer = Timer::new();
        timer.write_byte(0xff07, tac);
        let mut passed = 0;
        while passed + 1 < period {
            timer.step(1, &mut irq);
            passed += 1;
        }
        assert_eq!(timer.read_byte(0xff05), 0);
        timer.step(1, &mut irq);
        assert_eq!(timer.read_byte(0xff05), 1);
    }
}

#[test]
fn timer_stands_still_while_disabled() {
    let mut irq = Irq::new();
    let mut timer = Timer::new();
    timer.write_byte(0xff07, 0x01);
    for _ in 0..100 {
        timer.step(200, &mut irq);
    }
    assert_eq!(timer.read_byte(0xff05), 0);
    assert_eq!(timer.read_byte(0xff07), 0x01);
}

#[test]
fn divider_counts_multiples_of_256() {
    let mut irq = Irq::new();
    let mut timer = Timer::new();
    let steps = [100u8, 100, 56, 255, 1, 200, 200, 200];
    let mut total: u32 = 0;
    for s in steps {
        timer.step(s, &mut irq);
        total += s as u32;
        assert_eq!(timer.read_byte(0xff04) as u32, (total / 256) % 256);
    }
    timer.write_byte(0xff04, 0x77);
    assert_eq!(timer.read_byte(0xff04), 0);
}

#[test]
fn divider_wraps_after_256_increments() {
    let mut irq = Irq::new();
    let mut timer = Timer::new();
    for _ in 0..(256 * 2 + 3) {
        timer.step(128, &mut irq);
        timer.step(128, &mut irq);
    }
    assert_eq!(timer.read_byte(0xff04), 3);
}

#[test]
fn timer_registers_read_back() {
    let mut timer = Timer::new();
    timer.write_byte(0xff05, 0x12);
    timer.write_byte(0xff06, 0x34);
    timer.write_byte(0xff07, 0x03);
    assert_eq!(timer.read_byte(0xff05), 0x12);
    assert_eq!(timer.read_byte(0xff06), 0x34);
    assert_eq!(timer.read_byte(0xff07), 0x03);
    assert_eq!(timer.read_byte(0xff08), 0xff);
}

#[test]
fn joypad_reads_selected_row() {
    let mut irq = Irq::new();
    let mut pad = JoyPad::new();
    pad.write_byte(0x30);
    assert_eq!(pad.read_byte(), 0x0f);
    pad.button_pressed(Button::Right, &mut irq);
    pad.button_pressed(Button::Start, &mut irq);
    pad.write_byte(0x20);
    assert_eq!(pad.read_byte(), 0x0e);
    pad.write_byte(0x10);
    assert_eq!(pad.read_byte(), 0x07);
    pad.write_byte(0x30);
    assert_eq!(pad.read_byte(), 0x0f);
    assert_eq!(irq.interrupt_flag(), 0x10);
}

#[test]
fn joypad_press_clears_only_its_bit() {
    let mut irq = Irq::new();
    let mut pad = JoyPad::new();
    pad.write_byte(0x20);
    pad.button_pressed(Button::Left, &mut irq);
    assert_eq!(pad.read_byte(), 0x0d);
    pad.button_pressed(Button::Down, &mut irq);
    assert_eq!(pad.read_byte(), 0x05);
    pad.button_pressed(Button::Up, &mut irq);
    assert_eq!(pad.read_byte(), 0x01);
    pad.button_released(Button::Left);
    assert_eq!(pad.read_byte(), 0x03);
    pad.button_released(Button::Down);
    pad.button_released(Button::Up);
    assert_eq!(pad.read_byte(), 0x0f);
}

#[test]
fn joypad_action_row() {
    let mut irq = Irq::new();
    let mut pad = JoyPad::new();
    pad.write_byte(0x10);
    pad.button_pressed(Button::A, &mut irq);
    assert_eq!(pad.read_byte(), 0x0e);
    pad.button_pressed(Button::B, &mut irq);
    assert_eq!(pad.read_byte(), 0x0c);
    pad.button_pressed(Button::Select, &mut irq);
    assert_eq!(pad.read_byte(), 0x08);
    pad.button_released(Button::A);
    assert_eq!(pad.read_byte(), 0x09);
    assert!(Button::Up.is_direction() && !Button::A.is_direction());
    assert_eq!(Button::Start.mask(), 0x08);
}

#[test]
fn joypad_release_raises_no_interrupt() {
    let mut pad = JoyPad::new();
    pad.button_released(Button::A);
    pad.write_byte(0x00);
    assert_eq!(pad.read_byte(), 0x0f);
}
