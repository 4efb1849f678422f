use gb_core::irq::Irq;
use gb_core::ppu::{shade_color, Color, Mode, Ppu, HEIGHT, WIDTH};

fn run(ppu: &mut Ppu, irq: &mut Irq, cycles: u32) {
    let mut left = cycles;
    while left > 0 {
        let chunk = if left > 200 { 200 } else { left };
        ppu.step(chunk as u8, irq);
        left -= chunk;
    }
}

fn shades() -> [Color; 4] {
    [Color::white(), Color::lightgrey(), Color::darkgrey(), Color::black()]
}

#[test]
fn colors_have_their_levels() {
    assert_eq!(Color::white(), Color { r: 0xff, g: 0xff, b: 0xff });
    assert_eq!(Color::lightgrey(), Color { r: 0xaa, g: 0xaa, b: 0xaa });
    assert_eq!(Color::darkgrey(), Color { r: 0x55, g: 0x55, b: 0x55 });
    assert_eq!(Color::black(), Color { r: 0, g: 0, b: 0 });
}

#[test]
fn palette_maps_two_bits_per_index() {
    let s = shades();
    assert_eq!(shade_color(0xe4, 0), s[0]);
    assert_eq!(shade_color(0xe4, 1), s[1]);
    assert_eq!(shade_color(0xe4, 2), s[2]);
    assert_eq!(shade_color(0xe4, 3), s[3]);
    assert_eq!(shade_color(0x1b, 0), s[3]);
    assert_eq!(shade_color(0x1b, 1), s[2]);
    assert_eq!(shade_color(0x1b, 2), s[1]);
    assert_eq!(shade_color(0x1b, 3), s[0]);
}

#[test]
fn new_picture_is_white() {
    let ppu = Ppu::new();
    let frame = ppu.frame();
    assert_eq!(frame.len(), HEIGHT);
    assert_eq!(frame[0].len(), WIDTH);
    for row in frame.iter() {
        for px in row.iter() {
            assert_eq!(*px, Color::white());
        }
    }
}

#[test]
fn scanline_progression() {
    let mut irq = Irq::new();
    let mut ppu = Ppu::new();
    ppu.write_byte(0xff40, 0x91);
    ppu.write_byte(0xff47, 0xe4);
    ppu.write_byte(0x8000, 0x55);
    ppu.write_byte(0x8001, 0x33);
    run(&mut ppu, &mut irq, 456);
    assert_eq!(ppu.read_byte(0xff44), 1);
    assert_eq!(ppu.read_byte(0xff41) & 0x03, 2);
    let s = shades();
    let frame = ppu.frame();
    for x in 0..WIDTH {
        assert_eq!(frame[0][x], s[x % 4]);
        assert_eq!(ppu.pixel(0, x), s[x % 4]);
    }
    for x in 0..WIDTH {
        assert_eq!(frame[1][x], Color::white());
    }
}

#[test]
fn modes_follow_the_dot_counter() {
    let mut irq = Irq::new();
    let mut ppu = Ppu::new();
    ppu.write_byte(0xff40, 0x80);
    run(&mut ppu, &mut irq, 80);
    assert_eq!(ppu.read_byte(0xff41) & 0x03, Mode::Transfer.bits());
    run(&mut ppu, &mut irq, 171);
    assert_eq!(ppu.read_byte(0xff41) & 0x03, Mode::Transfer.bits());
    run(&mut ppu, &mut irq, 1);
    assert_eq!(ppu.read_byte(0xff41) & 0x03, Mode::HBlank.bits());
    run(&mut ppu, &mut irq, 203);
    assert_eq!(ppu.read_byte(0xff41) & 0x03, Mode::HBlank.bits());
    assert_eq!(ppu.read_byte(0xff44), 0);
    run(&mut ppu, &mut irq, 1);
    assert_eq!(ppu.read_byte(0xff41) & 0x03, Mode::OAMSearch.bits());
    assert_eq!(ppu.read_byte(0xff44), 1);
}

#[test]
fn vertical_blank_begins_on_line_144() {
    let mut irq = Irq::new();
    let mut ppu = Ppu::new();
    ppu.write_byte(0xff40, 0x80);
    run(&mut ppu, &mut irq, 456 * 144 - 1);
    assert_eq!(irq.interrupt_flag() & 0x01, 0);
    assert_eq!(ppu.read_byte(0xff44), 143);
    run(&mut ppu, &mut irq, 1);
    assert_eq!(ppu.read_byte(0xff44), 144);
    assert_eq!(ppu.read_byte(0xff41) & 0x03, 1);
    assert_eq!(irq.interrupt_flag(), 0x01);
}

#[test]
fn line_counter_wraps_after_line_153() {
    let mut irq = Irq::new();
    let mut ppu = Ppu::new();
    ppu.write_byte(0xff40, 0x80);
    run(&mut ppu, &mut irq, 456 * 153);
    assert_eq!(ppu.read_byte(0xff44), 153);
    assert_eq!(ppu.read_byte(0xff41) & 0x03, 1);
    run(&mut ppu, &mut irq, 456);
    assert_eq!(ppu.read_byte(0xff44), 0);
    assert_eq!(ppu.read_byte(0xff41) & 0x03, 2);
    for _ in 0..1000 {
        run(&mut ppu, &mut irq, 97);
        assert!(ppu.read_byte(0xff44) < 154);
    }
}

#[test]
fn status_interrupts_follow_their_enable_bits() {
    let mut irq = Irq::new();
    let mut ppu = Ppu::new();
    ppu.write_byte(0xff40, 0x80);
    ppu.write_byte(0xff41, 0x08);
    run(&mut ppu, &mut irq, 251);
    assert_eq!(irq.interrupt_flag(), 0);
    run(&mut ppu, &mut irq, 1);
    assert_eq!(irq.interrupt_flag(), 0x02);

    let mut irq = Irq::new();
    let mut ppu = Ppu::new();
    ppu.write_byte(0xff40, 0x80);
    ppu.write_byte(0xff41, 0x20);
    run(&mut ppu, &mut irq, 455);
    assert_eq!(irq.interrupt_flag(), 0);
    run(&mut ppu, &mut irq, 1);
    assert_eq!(irq.interrupt_flag(), 0x02);

    let mut irq = Irq::new();
    let mut ppu = Ppu::new();
    ppu.write_byte(0xff40, 0x80);
    ppu.write_byte(0xff41, 0x10);
    run(&mut ppu, &mut irq, 456 * 144);
    assert_eq!(irq.interrupt_flag(), 0x03);
}

#[test]
fn line_compare_sets_flag_and_interrupts() {
    let mut irq = Irq::new();
    let mut ppu = Ppu::new();
    ppu.write_byte(0xff40, 0x80);
    ppu.write_byte(0xff41, 0x40);
    ppu.write_byte(0xff45, 2);
    run(&mut ppu, &mut irq, 456);
    assert_eq!(ppu.read_byte(0xff41) & 0x04, 0);
    assert_eq!(irq.interrupt_flag(), 0);
    run(&mut ppu, &mut irq, 456);
    assert_eq!(ppu.read_byte(0xff41) & 0x04, 0x04);
    assert_eq!(irq.interrupt_flag(), 0x02);
    run(&mut ppu, &mut irq, 456);
    assert_eq!(ppu.read_byte(0xff41) & 0x04, 0);
}

#[test]
fn display_off_stands_still() {
    let mut irq = Irq::new();
    let mut ppu = Ppu::new();
    ppu.write_byte(0xff40, 0x11);
    run(&mut ppu, &mut irq, 456 * 200);
    assert_eq!(ppu.read_byte(0xff44), 0);
    assert_eq!(ppu.read_byte(0xff41), 0);
    assert_eq!(irq.interrupt_flag(), 0);
}

#[test]
fn line_counter_cannot_be_written() {
    let mut irq = Irq::new();
    let mut ppu = Ppu::new();
    ppu.write_byte(0xff40, 0x80);
    run(&mut ppu, &mut irq, 456 * 3);
    ppu.write_byte(0xff44, 99);
    assert_eq!(ppu.read_byte(0xff44), 3);
}

#[test]
fn registers_and_memories_read_back() {
    let mut ppu = Ppu::new();
    let regs = [0xff40u16, 0xff41, 0xff42, 0xff43, 0xff45, 0xff47, 0xff48, 0xff49, 0xff4a, 0xff4b];
    for (i, addr) in regs.iter().enumerate() {
        ppu.write_byte(*addr, 0x10 + i as u8);
    }
    for (i, addr) in regs.iter().enumerate() {
        assert_eq!(ppu.read_byte(*addr), 0x10 + i as u8);
    }
    ppu.write_byte(0x8000, 1);
    ppu.write_byte(0x9fff, 2);
    ppu.write_byte(0xfe00, 3);
    ppu.write_byte(0xfe9f, 4);
    assert_eq!(ppu.read_byte(0x8000), 1);
    assert_eq!(ppu.read_byte(0x9fff), 2);
    assert_eq!(ppu.read_byte(0xfe00), 3);
    assert_eq!(ppu.read_byte(0xfe9f), 4);
    assert_eq!(ppu.read_byte(0xff46), 0xff);
    assert_eq!(ppu.read_byte(0x0000), 0xff);
}

#[test]
fn scroll_moves_the_background() {
    let mut irq = Irq::new();
    let mut ppu = Ppu::new();
    ppu.write_byte(0xff40, 0x91);
    ppu.write_byte(0xff47, 0xe4);
    ppu.write_byte(0x8000, 0x55);
    ppu.write_byte(0x8001, 0x33);
    ppu.write_byte(0x8002, 0xff);
    ppu.write_byte(0x8003, 0xff);
    ppu.write_byte(0xff43, 1);
    run(&mut ppu, &mut irq, 456);
    let s = shades();
    for x in 0..WIDTH {
        assert_eq!(ppu.pixel(0, x), s[(x + 1) % 4]);
    }
    let mut irq = Irq::new();
    let mut ppu = Ppu::new();
    ppu.write_byte(0xff40, 0x91);
    ppu.write_byte(0xff47, 0xe4);
    ppu.write_byte(0x8002, 0xff);
    ppu.write_byte(0x8003, 0xff);
    ppu.write_byte(0xff42, 1);
    run(&mut ppu, &mut irq, 456);
    for x in 0..WIDTH {
        assert_eq!(ppu.pixel(0, x), Color::black());
    }
}

#[test]
fn signed_tile_ids_count_from_0x9000() {
    let mut irq = Irq::new();
    let mut ppu = Ppu::new();
    ppu.write_byte(0xff40, 0x81);
    ppu.write_byte(0xff47, 0xe4);
    ppu.write_byte(0x9000, 0xff);
    ppu.write_byte(0x9800, 0x00);
    ppu.write_byte(0x9801, 0xff);
    ppu.write_byte(0x8ff0, 0x00);
    ppu.write_byte(0x8ff1, 0xff);
    run(&mut ppu, &mut irq, 456);
    for x in 0..8 {
        assert_eq!(ppu.pixel(0, x), Color::lightgrey());
    }
    for x in 8..16 {
        assert_eq!(ppu.pixel(0, x), Color::darkgrey());
    }
    assert_eq!(ppu.bg_window_tile_addr(0x00), 0x9000);
    assert_eq!(ppu.bg_window_tile_addr(0x7f), 0x97f0);
    assert_eq!(ppu.bg_window_tile_addr(0x80), 0x8800);
    assert_eq!(ppu.bg_window_tile_addr(0xff), 0x8ff0);
}

#[test]
fn window_covers_from_wx_minus_7() {
    let mut irq = Irq::new();
    let mut ppu = Ppu::new();
    ppu.write_byte(0xff40, 0xf1);
    ppu.write_byte(0xff47, 0xe4);
    ppu.write_byte(0x8010, 0xff);
    ppu.write_byte(0x8011, 0xff);
    ppu.write_byte(0x9c00, 0x01);
    ppu.write_byte(0xff4b, 87);
    ppu.write_byte(0xff4a, 0);
    run(&mut ppu, &mut irq, 456);
    for x in 0..80 {
        assert_eq!(ppu.pixel(0, x), Color::white());
    }
    for x in 80..88 {
        assert_eq!(ppu.pixel(0, x), Color::black());
    }
    for x in 88..WIDTH {
        assert_eq!(ppu.pixel(0, x), Color::white());
    }
}

#[test]
fn window_waits_for_its_line() {
    let mut irq = Irq::new();
    let mut ppu = Ppu::new();
    ppu.write_byte(0xff40, 0xf1);
    ppu.write_byte(0xff47, 0xe4);
    ppu.write_byte(0x8010, 0xff);
    ppu.write_byte(0x8011, 0xff);
    ppu.write_byte(0x9c00, 0x01);
    ppu.write_byte(0xff4b, 7);
    ppu.write_byte(0xff4a, 1);
    run(&mut ppu, &mut irq, 456 * 2);
    assert_eq!(ppu.pixel(0, 0), Color::white());
    assert_eq!(ppu.pixel(1, 0), Color::black());
    assert_eq!(ppu.pixel(1, 7), Color::black());
    assert_eq!(ppu.pixel(1, 8), Color::white());
}

#[test]
fn sprites_draw_over_the_background() {
    let mut irq = Irq::new();
    let mut ppu = Ppu::new();
    ppu.write_byte(0xff40, 0x93);
    ppu.write_byte(0xff47, 0xe4);
    ppu.write_byte(0xff48, 0xe4);
    ppu.write_byte(0x8010, 0xf0);
    ppu.write_byte(0x8011, 0x00);
    ppu.write_byte(0xfe00, 16);
    ppu.write_byte(0xfe01, 8);
    ppu.write_byte(0xfe02, 1);
    ppu.write_byte(0xfe03, 0);
    run(&mut ppu, &mut irq, 456 * 2);
    for x in 0..4 {
        assert_eq!(ppu.pixel(0, x), Color::lightgrey());
    }
    for x in 4..WIDTH {
        assert_eq!(ppu.pixel(0, x), Color::white());
    }
    for x in 0..WIDTH {
        assert_eq!(ppu.pixel(1, x), Color::white());
    }
}

#[test]
fn sprites_flip_and_pick_their_palette() {
    let mut irq = Irq::new();
    let mut ppu = Ppu::new();
    ppu.write_byte(0xff40, 0x93);
    ppu.write_byte(0xff47, 0xe4);
    ppu.write_byte(0xff48, 0xe4);
    ppu.write_byte(0xff49, 0x1b);
    ppu.write_byte(0x8010, 0xf0);
    ppu.write_byte(0x801e, 0x0f);
    ppu.write_byte(0x801f, 0x0f);
    ppu.write_byte(0xfe00, 16);
    ppu.write_byte(0xfe01, 8);
    ppu.write_byte(0xfe02, 1);
    ppu.write_byte(0xfe03, 0x30);
    ppu.write_byte(0xfe04, 17);
    ppu.write_byte(0xfe05, 48);
    ppu.write_byte(0xfe06, 1);
    ppu.write_byte(0xfe07, 0x40);
    run(&mut ppu, &mut irq, 456 * 2);
    for x in 0..4 {
        assert_eq!(ppu.pixel(0, x), Color::white());
    }
    for x in 4..8 {
        assert_eq!(ppu.pixel(0, x), Color::darkgrey());
    }
    for x in 40..44 {
        assert_eq!(ppu.pixel(1, x), Color::white());
    }
    for x in 44..48 {
        assert_eq!(ppu.pixel(1, x), Color::black());
    }
}

#[test]
fn sprite_behind_background_shows_only_over_index_zero() {
    let mut irq = Irq::new();
    let mut ppu = Ppu::new();
    ppu.write_byte(0xff40, 0x93);
    ppu.write_byte(0xff47, 0xe4);
    ppu.write_byte(0xff48, 0xe4);
    ppu.write_byte(0x8000, 0x0f);
    ppu.write_byte(0x8010, 0xff);
    ppu.write_byte(0x8011, 0xff);
    ppu.write_byte(0xfe00, 16);
    ppu.write_byte(0xfe01, 8);
    ppu.write_byte(0xfe02, 1);
    ppu.write_byte(0xfe03, 0x80);
    run(&mut ppu, &mut irq, 456);
    for x in 0..4 {
        assert_eq!(ppu.pixel(0, x), Color::black());
    }
    for x in 4..8 {
        assert_eq!(ppu.pixel(0, x), Color::lightgrey());
    }
}

#[test]
fn tall_sprites_use_two_tiles() {
    let mut irq = Irq::new();
    let mut ppu = Ppu::new();
    ppu.write_byte(0xff40, 0x97);
    ppu.write_byte(0xff47, 0xe4);
    ppu.write_byte(0xff48, 0xe4);
    ppu.write_byte(0x8020, 0xff);
    ppu.write_byte(0x8030, 0xff);
    ppu.write_byte(0x8031, 0xff);
    ppu.write_byte(0xfe00, 16);
    ppu.write_byte(0xfe01, 8);
    ppu.write_byte(0xfe02, 3);
    ppu.write_byte(0xfe03, 0);
    run(&mut ppu, &mut irq, 456 * 9);
    assert_eq!(ppu.vertical_sprite_size(), 16);
    assert_eq!(ppu.pixel(0, 0), Color::lightgrey());
    assert_eq!(ppu.pixel(1, 0), Color::white());
    assert_eq!(ppu.pixel(8, 0), Color::black());
    assert_eq!(ppu.pixel(8, 7), Color::black());
    assert_eq!(ppu.pixel(8, 8), Color::white());
}

#[test]
fn later_sprites_cover_earlier_ones() {
    let mut irq = Irq::new();
    let mut ppu = Ppu::new();
    ppu.write_byte(0xff40, 0x93);
    ppu.write_byte(0xff48, 0xe4);
    ppu.write_byte(0x8010, 0xff);
    ppu.write_byte(0x8020, 0xff);
    ppu.write_byte(0x8021, 0xff);
    ppu.write_byte(0xfe00, 16);
    ppu.write_byte(0xfe01, 8);
    ppu.write_byte(0xfe02, 1);
    ppu.write_byte(0xfe04, 16);
    ppu.write_byte(0xfe05, 12);
    ppu.write_byte(0xfe06, 2);
    run(&mut ppu, &mut irq, 456);
    for x in 0..4 {
        assert_eq!(ppu.pixel(0, x), Color::lightgrey());
    }
    for x in 4..12 {
        assert_eq!(ppu.pixel(0, x), Color::black());
    }
}

#[test]
fn control_bits_are_decoded() {
    let mut ppu = Ppu::new();
    ppu.write_byte(0xff40, 0x00);
    assert!(!ppu.lcd_enabled() && !ppu.window_enabled() && !ppu.sprites_enabled());
    assert!(!ppu.bg_and_window_enabled());
    assert_eq!(ppu.window_tile_map_base(), 0x9800);
    assert_eq!(ppu.bg_tile_map_base(), 0x9800);
    assert_eq!(ppu.tile_data_base(), 0x8800);
    assert_eq!(ppu.vertical_sprite_size(), 8);
    ppu.write_byte(0xff40, 0xff);
    assert!(ppu.lcd_enabled() && ppu.window_enabled() && ppu.sprites_enabled());
    assert!(ppu.bg_and_window_enabled());
    assert_eq!(ppu.window_tile_map_base(), 0x9c00);
    assert_eq!(ppu.bg_tile_map_base(), 0x9c00);
    assert_eq!(ppu.tile_data_base(), 0x8000);
    assert_eq!(ppu.vertical_sprite_size(), 16);
    assert_eq!(ppu.bg_window_tile_addr(0x80), 0x8800);
}

#[test]
fn single_step_moves_one_dot() {
    let mut irq = Irq::new();
    let mut ppu = Ppu::new();
    ppu.write_byte(0xff40, 0x80);
    for _ in 0..80 {
        ppu.single_step(&mut irq);
    }
    assert_eq!(ppu.read_byte(0xff41) & 0x03, 3);
    assert_eq!(ppu.read_byte(0xff44), 0);
    assert_eq!(irq.interrupt_flag(), 0);
}
