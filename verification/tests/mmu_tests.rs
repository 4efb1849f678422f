use gb_core::cartridge::Cartridge;
use gb_core::irq::Irq;
use gb_core::joypad::{Button, JoyPad};
use gb_core::mmu::Mmu;
use gb_core::ppu::Ppu;
use gb_core::sound::Apu;

fn bus(game: &[u8]) -> Mmu {
    Mmu::new(Apu::new(), Irq::new(), Ppu::new(), JoyPad::new(), Cartridge::no_boot(game))
}

#[test]
fn rom_is_read_only() {
    let mut rom = vec![0u8; 0x8000];
    rom[0x0150] = 0x42;
    let mut mmu = bus(&rom);
    assert_eq!(mmu.read_byte(0x0150), 0x42);
    mmu.write_byte(0x0150, 0x99);
    assert_eq!(mmu.read_byte(0x0150), 0x42);
}

#[test]
fn work_memory_and_its_mirror() {
    let mut mmu = bus(&[]);
    mmu.write_byte(0xc000, 0x11);
    mmu.write_byte(0xddff, 0x22);
    mmu.write_byte(0xdfff, 0x33);
    assert_eq!(mmu.read_byte(0xc000), 0x11);
    assert_eq!(mmu.read_byte(0xe000), 0x11);
    assert_eq!(mmu.read_byte(0xfdff), 0x22);
    assert_eq!(mmu.read_byte(0xdfff), 0x33);
    mmu.write_byte(0xe123, 0x44);
    assert_eq!(mmu.read_byte(0xc123), 0x44);
}

#[test]
fn high_memory_and_interrupt_enable() {
    let mut mmu = bus(&[]);
    mmu.write_byte(0xff80, 0x01);
    mmu.write_byte(0xfffe, 0x02);
    mmu.write_byte(0xffff, 0x1f);
    assert_eq!(mmu.read_byte(0xff80), 0x01);
    assert_eq!(mmu.read_byte(0xfffe), 0x02);
    assert_eq!(mmu.read_byte(0xffff), 0x1f);
    assert_eq!(mmu.interrupt_enable(), 0x1f);
}

#[test]
fn unusable_and_unmapped_addresses() {
    let mut mmu = bus(&[]);
    mmu.write_byte(0xfea0, 0x55);
    mmu.write_byte(0xfeff, 0x55);
    assert_eq!(mmu.read_byte(0xfea0), 0);
    assert_eq!(mmu.read_byte(0xfeff), 0);
    mmu.write_byte(0xa000, 0x55);
    mmu.write_byte(0xff7f, 0x55);
    mmu.write_byte(0xff03, 0x55);
    assert_eq!(mmu.read_byte(0xa000), 0xff);
    assert_eq!(mmu.read_byte(0xbfff), 0xff);
    assert_eq!(mmu.read_byte(0xff7f), 0xff);
    assert_eq!(mmu.read_byte(0xff03), 0xff);
    assert_eq!(mmu.read_byte(0xff46), 0xff);
    assert_eq!(mmu.read_byte(0xff50), 0xff);
}

#[test]
fn registers_are_routed_to_their_owners() {
    let mut mmu = bus(&[]);
    mmu.write_byte(0xff01, 0x12);
    mmu.write_byte(0xff02, 0x34);
    mmu.write_byte(0xff05, 0x56);
    mmu.write_byte(0xff0f, 0x15);
    mmu.write_byte(0xff24, 0x77);
    mmu.write_byte(0xff42, 0x9a);
    mmu.write_byte(0x8123, 0xbc);
    mmu.write_byte(0xfe10, 0xde);
    assert_eq!(mmu.read_byte(0xff01), 0x12);
    assert_eq!(mmu.read_byte(0xff02), 0x34);
    assert_eq!(mmu.read_byte(0xff05), 0x56);
    assert_eq!(mmu.read_byte(0xff0f), 0x15);
    assert_eq!(mmu.interrupt_flag(), 0x15);
    assert_eq!(mmu.read_byte(0xff24), 0x77);
    assert_eq!(mmu.read_byte(0xff42), 0x9a);
    assert_eq!(mmu.read_byte(0x8123), 0xbc);
    assert_eq!(mmu.read_byte(0xfe10), 0xde);
    mmu.set_interrupt_flag(0x02);
    assert_eq!(mmu.read_byte(0xff0f), 0x02);
}

#[test]
fn joypad_through_the_bus() {
    let mut mmu = bus(&[]);
    mmu.write_byte(0xff00, 0x20);
    assert_eq!(mmu.read_byte(0xff00), 0x0f);
    mmu.button_pressed(Button::Down);
    assert_eq!(mmu.read_byte(0xff00), 0x07);
    assert_eq!(mmu.read_byte(0xff0f), 0x10);
    mmu.button_released(Button::Down);
    assert_eq!(mmu.read_byte(0xff00), 0x0f);
}

#[test]
fn words_are_little_endian() {
    let mut mmu = bus(&[]);
    mmu.write_word(0xc000, 0x1234);
    assert_eq!(mmu.read_byte(0xc000), 0x34);
    assert_eq!(mmu.read_byte(0xc001), 0x12);
    assert_eq!(mmu.read_word(0xc000), 0x1234);
    mmu.write_byte(0xffff, 0xab);
    assert_eq!(mmu.read_word(0xffff), 0x00ab);
}

#[test]
fn dma_copies_a_page_into_the_sprite_table() {
    let mut mmu = bus(&[]);
    for i in 0..0xa0u16 {
        mmu.write_byte(0xc100 + i, (i as u8) ^ 0x5a);
    }
    mmu.write_byte(0xc1a0, 0xee);
    mmu.write_byte(0xff46, 0xc1);
    for i in 0..0xa0u16 {
        assert_eq!(mmu.read_byte(0xfe00 + i), (i as u8) ^ 0x5a);
        assert_eq!(mmu.read_byte(0xc100 + i), (i as u8) ^ 0x5a);
    }
}

#[test]
fn dma_from_rom_and_from_the_sprite_table() {
    let mut rom = vec![0u8; 0x8000];
    for i in 0..0xa0usize {
        rom[0x0200 + i] = i as u8 + 1;
    }
    let mut mmu = bus(&rom);
    mmu.write_byte(0xff46, 0x02);
    for i in 0..0xa0u16 {
        assert_eq!(mmu.read_byte(0xfe00 + i), i as u8 + 1);
    }
    mmu.write_byte(0xff46, 0xfe);
    for i in 0..0xa0u16 {
        assert_eq!(mmu.read_byte(0xfe00 + i), i as u8 + 1);
    }
    mmu.write_byte(0xff46, 0xa0);
    for i in 0..0xa0u16 {
        assert_eq!(mmu.read_byte(0xfe00 + i), 0xff);
    }
}

#[test]
fn step_reaches_picture_sound_and_timer() {
    let mut mmu = bus(&[]);
    mmu.write_byte(0xff40, 0x80);
    mmu.write_byte(0xff07, 0x05);
    mmu.write_byte(0xff05, 0xff);
    for _ in 0..4 {
        mmu.step(114);
    }
    assert_eq!(mmu.read_byte(0xff44), 1);
    assert_eq!(mmu.read_byte(0xff04), 1);
    assert_eq!(mmu.read_byte(0xff0f) & 0x04, 0x04);
    assert_eq!(mmu.audio_buffer().len(), 8);
    assert_eq!(mmu.audio_buffer().len(), 0);
}

#[test]
fn boot_latch_unmaps_the_boot_program() {
    let boot = vec![0x31u8; 0x100];
    let game = vec![0xc3u8; 0x8000];
    let mut mmu =
        Mmu::new(Apu::new(), Irq::new(), Ppu::new(), JoyPad::new(), Cartridge::new(&boot, &game));
    assert_eq!(mmu.read_byte(0x0000), 0x31);
    assert_eq!(mmu.read_byte(0x0100), 0xc3);
    mmu.write_byte(0xff50, 0x01);
    assert_eq!(mmu.read_byte(0x0000), 0xc3);
}

#[test]
fn picture_comes_through_the_bus() {
    let mmu = bus(&[]);
    let frame = mmu.frame();
    assert_eq!(frame.len(), 144);
    assert_eq!(frame[143].len(), 160);
}
