//! The picture unit: video memory, the sprite table, the display
//! registers, the scanline state machine and the renderer.
//!
//! A scanline takes 456 dots.  On the 144 visible lines the unit searches
//! the sprite table for 80 dots, transfers pixels for 172, and rests for
//! the remainder; the line is drawn when the transfer ends.  Ten more
//! lines pass in vertical blank.

use vstd::prelude::*;
use crate::alu::signed;
use crate::bits::{bit, bit_of, clear_bit, pow2, set_bit, with_bit, without_bit};
use crate::irq::{raised, Irq, LCD_STAT_BIT, VBLANK_BIT};

verus! {

pub const VRAM_SIZE: usize = 0x4000;

pub const OAM_SIZE: usize = 0xa0;

/// Visible lines.
pub const HEIGHT: usize = 144;

/// Visible pixels per line.
pub const WIDTH: usize = 160;

/// Lines per frame, vertical blank included.
pub const LINES: u16 = 154;

/// Dots per line.
pub const DOTS: u16 = 456;

/// The dot at which the sprite search ends.
pub const OAM_SCAN_END: u16 = 80;

/// The dot at which the pixel transfer ends.
pub const TRANSFER_END: u16 = 252;

/// Entries of the sprite table.
pub const SPRITES: usize = 40;

pub const VRAM_BASE: u16 = 0x8000;

pub const OAM_BASE: u16 = 0xfe00;

#[derive(Copy, Clone, PartialEq, Eq, Structural, Debug)]
pub enum Mode {
    HBlank,
    VBlank,
    OAMSearch,
    Transfer,
}

impl Mode {
    /// The two low bits of STAT that stand for the mode.
    pub open spec fn spec_bits(self) -> u8 {
        match self {
            Mode::HBlank => 0,
            Mode::VBlank => 1,
            Mode::OAMSearch => 2,
            Mode::Transfer => 3,
        }
    }

    /// The bit of STAT that lets the mode request an interrupt on entry;
    /// the transfer has none.
    pub open spec fn spec_enable_bit(self) -> Option<nat> {
        match self {
            Mode::HBlank => Some(3nat),
            Mode::VBlank => Some(4nat),
            Mode::OAMSearch => Some(5nat),
            Mode::Transfer => None,
        }
    }

    pub fn bits(self) -> (r: u8)
        ensures
            r == self.spec_bits(),
            r < 4,
    {
        match self {
            Mode::HBlank => 0,
            Mode::VBlank => 1,
            Mode::OAMSearch => 2,
            Mode::Transfer => 3,
        }
    }
}

/// The mode that the state machine is in at dot `clock` of line `ly`.
pub open spec fn mode_at(ly: u8, clock: u16) -> Mode {
    if ly >= HEIGHT {
        Mode::VBlank
    } else if clock < OAM_SCAN_END {
        Mode::OAMSearch
    } else if clock < TRANSFER_END {
        Mode::Transfer
    } else {
        Mode::HBlank
    }
}

/// Whether entering `mode` requests the status interrupt under `stat`.
pub open spec fn stat_requested(stat: u8, mode: Mode) -> bool {
    match mode.spec_enable_bit() {
        Some(n) => bit_of(stat as int, n),
        None => false,
    }
}

/// STAT with its mode bits replaced.
pub open spec fn stat_with_mode(stat: u8, mode: Mode) -> u8 {
    ((stat / 4) * 4 + mode.spec_bits()) as u8
}

/// STAT with bit 2 saying whether LY equals LYC.
pub open spec fn stat_with_coincidence(stat: u8, equal: bool) -> u8 {
    if equal {
        with_bit(stat, 2)
    } else {
        without_bit(stat, 2)
    }
}

#[derive(Copy, Clone, PartialEq, Eq, Structural, Debug)]
pub struct Color {
    pub r: u8,
    pub g: u8,
    pub b: u8,
}

impl Color {
    pub open spec fn spec_black() -> Color {
        Color { r: 0, g: 0, b: 0 }
    }

    pub open spec fn spec_white() -> Color {
        Color { r: 0xff, g: 0xff, b: 0xff }
    }

    pub open spec fn spec_lightgrey() -> Color {
        Color { r: 0xaa, g: 0xaa, b: 0xaa }
    }

    pub open spec fn spec_darkgrey() -> Color {
        Color { r: 0x55, g: 0x55, b: 0x55 }
    }

    pub fn black() -> (c: Self)
        ensures
            c == Color::spec_black(),
    {
        Color { r: 0, g: 0, b: 0 }
    }

    pub fn white() -> (c: Self)
        ensures
            c == Color::spec_white(),
    {
        Color { r: 0xff, g: 0xff, b: 0xff }
    }

    pub fn lightgrey() -> (c: Self)
        ensures
            c == Color::spec_lightgrey(),
    {
        Color { r: 0xaa, g: 0xaa, b: 0xaa }
    }

    pub fn darkgrey() -> (c: Self)
        ensures
            c == Color::spec_darkgrey(),
    {
        Color { r: 0x55, g: 0x55, b: 0x55 }
    }
}

/// The shade, 0 to 3, that a palette register gives to a colour index.
pub open spec fn shade_of(palette: u8, index: u8) -> u8 {
    ((palette as int / pow2((2 * index) as nat) as int) % 4) as u8
}

/// The colour of a shade: white, light grey, dark grey, black.
pub open spec fn color_of_shade(shade: u8) -> Color {
    if shade == 0 {
        Color::spec_white()
    } else if shade == 1 {
        Color::spec_lightgrey()
    } else if shade == 2 {
        Color::spec_darkgrey()
    } else {
        Color::spec_black()
    }
}

/// The colour that a palette register gives to a colour index.
pub open spec fn palette_color(palette: u8, index: u8) -> Color {
    color_of_shade(shade_of(palette, index))
}

/// The colour that a palette register gives to a colour index below 4.
pub fn shade_color(palette: u8, index: u8) -> (c: Color)
    requires
        index < 4,
    ensures
        c == palette_color(palette, index),
{
    let shade: u8 = if index == 0 {
        palette % 4
    } else if index == 1 {
        (palette / 4) % 4
    } else if index == 2 {
        (palette / 16) % 4
    } else {
        (palette / 64) % 4
    };
    proof {
        if index == 0 {
            assert(pow2((2 * index) as nat) == 1);
            assert(palette as int / 1 == palette);
        } else if index == 1 {
            assert(pow2((2 * index) as nat) == 4);
        } else if index == 2 {
            assert(pow2((2 * index) as nat) == 16);
        } else {
            assert(pow2((2 * index) as nat) == 64);
        }
        assert(shade == shade_of(palette, index));
    }
    if shade == 0 {
        Color::white()
    } else if shade == 1 {
        Color::lightgrey()
    } else if shade == 2 {
        Color::darkgrey()
    } else {
        Color::black()
    }
}

/// What a scanline is drawn from: the memories and the registers that the
/// renderer reads.
pub struct Scene {
    pub vram: Seq<u8>,
    pub oam: Seq<u8>,
    pub lcdc: u8,
    pub scy: u8,
    pub scx: u8,
    pub ly: u8,
    pub wy: u8,
    pub wx: u8,
    pub bgp: u8,
    pub obp0: u8,
    pub obp1: u8,
}

impl Scene {
    /// The byte of video memory at bus address `addr`.
    pub open spec fn vram_at(self, addr: int) -> u8 {
        self.vram[addr - VRAM_BASE]
    }

    /// LCDC bit 0: background and window are drawn.
    pub open spec fn bg_and_window_enabled(self) -> bool {
        bit_of(self.lcdc as int, 0)
    }

    /// LCDC bit 1: sprites are drawn.
    pub open spec fn sprites_enabled(self) -> bool {
        bit_of(self.lcdc as int, 1)
    }

    /// LCDC bit 2: sprites are 16 lines tall instead of 8.
    pub open spec fn sprite_height(self) -> int {
        if bit_of(self.lcdc as int, 2) {
            16
        } else {
            8
        }
    }

    /// LCDC bit 3 picks the background's tile map.
    pub open spec fn bg_tile_map_base(self) -> int {
        if bit_of(self.lcdc as int, 3) {
            0x9c00
        } else {
            0x9800
        }
    }

    /// LCDC bit 5: the window is drawn.
    pub open spec fn window_enabled(self) -> bool {
        bit_of(self.lcdc as int, 5)
    }

    /// LCDC bit 6 picks the window's tile map.
    pub open spec fn window_tile_map_base(self) -> int {
        if bit_of(self.lcdc as int, 6) {
            0x9c00
        } else {
            0x9800
        }
    }

    /// Where the pattern of a background or window tile starts: LCDC bit 4
    /// set counts tiles up from `0x8000`; clear, the id is signed and counts
    /// from `0x9000`.
    pub open spec fn tile_addr(self, tile_id: u8) -> int {
        if bit_of(self.lcdc as int, 4) {
            0x8000 + 16 * tile_id
        } else {
            0x9000 + 16 * signed(tile_id)
        }
    }

    /// The colour index of a pixel of a tile: bit `7 - tile_x` of the
    /// second byte of the row above the same bit of the first.
    pub open spec fn tile_color_index(self, tile_addr: int, tile_x: int, tile_y: int) -> u8 {
        let low = self.vram_at(tile_addr + 2 * tile_y);
        let high = self.vram_at(tile_addr + 2 * tile_y + 1);
        let position = (7 - tile_x) as nat;
        ((if bit_of(high as int, position) { 2int } else { 0 }) + (if bit_of(low as int, position) {
            1int
        } else {
            0
        })) as u8
    }

    /// The colour index at pixel (`px`, `py`) of the tile map at
    /// `map_base`.
    pub open spec fn map_index(self, map_base: int, px: int, py: int) -> u8 {
        let tile_id = self.vram_at(map_base + px / 8 + 32 * (py / 8));
        self.tile_color_index(self.tile_addr(tile_id), px % 8, py % 8)
    }

    /// The background's colour index at screen column `x`.
    pub open spec fn bg_index(self, x: int) -> u8 {
        self.map_index(self.bg_tile_map_base(), (x + self.scx) % 256, (self.ly + self.scy) % 256)
    }

    /// Whether the window covers screen column `x` on this line.
    pub open spec fn window_covers(self, x: int) -> bool {
        self.window_enabled() && self.ly >= self.wy && x + 7 >= self.wx
    }

    /// The window's colour index at screen column `x`.
    pub open spec fn window_index(self, x: int) -> u8 {
        self.map_index(self.window_tile_map_base(), x + 7 - self.wx, self.ly - self.wy)
    }

    /// The colour index of background and window together at column `x`;
    /// zero while they are switched off.
    pub open spec fn field_index(self, x: int) -> u8 {
        if !self.bg_and_window_enabled() {
            0
        } else if self.window_covers(x) {
            self.window_index(x)
        } else {
            self.bg_index(x)
        }
    }

    /// The colour of background and window together at column `x`, over a
    /// pixel that showed `under` before.
    pub open spec fn field_color(self, x: int, under: Color) -> Color {
        if self.bg_and_window_enabled() {
            palette_color(self.bgp, self.field_index(x))
        } else {
            under
        }
    }

    pub open spec fn sprite_y(self, k: int) -> u8 {
        self.oam[4 * k]
    }

    pub open spec fn sprite_x(self, k: int) -> u8 {
        self.oam[4 * k + 1]
    }

    pub open spec fn sprite_tile(self, k: int) -> u8 {
        self.oam[4 * k + 2]
    }

    pub open spec fn sprite_attributes(self, k: int) -> u8 {
        self.oam[4 * k + 3]
    }

    /// Whether sprite `k` crosses this line: `LY + 16` lies within its
    /// height from its Y position.
    pub open spec fn sprite_on_line(self, k: int) -> bool {
        self.sprite_y(k) <= self.ly + 16 < self.sprite_y(k) + self.sprite_height()
    }

    /// The row of sprite `k` on this line, counted from the bottom when
    /// attribute bit 6 flips it.
    pub open spec fn sprite_row(self, k: int) -> int {
        let row = self.ly + 16 - self.sprite_y(k);
        if bit_of(self.sprite_attributes(k) as int, 6) {
            self.sprite_height() - 1 - row
        } else {
            row
        }
    }

    /// The tile that holds the row: for tall sprites the id with its low
    /// bit cleared for the upper half and set for the lower.
    pub open spec fn sprite_tile_id(self, k: int) -> int {
        if self.sprite_height() == 8 {
            self.sprite_tile(k) as int
        } else if self.sprite_row(k) < 8 {
            (self.sprite_tile(k) / 2) * 2
        } else {
            (self.sprite_tile(k) / 2) * 2 + 1
        }
    }

    /// Whether sprite `k` covers screen column `x`.
    pub open spec fn sprite_covers(self, k: int, x: int) -> bool {
        self.sprite_x(k) <= x + 8 < self.sprite_x(k) + 8
    }

    /// The column of sprite `k` at screen column `x`, counted from the
    /// right when attribute bit 5 flips it.
    pub open spec fn sprite_col(self, k: int, x: int) -> int {
        let col = x + 8 - self.sprite_x(k);
        if bit_of(self.sprite_attributes(k) as int, 5) {
            7 - col
        } else {
            col
        }
    }

    /// The colour index of sprite `k` at screen column `x`.
    pub open spec fn sprite_index(self, k: int, x: int) -> u8 {
        self.tile_color_index(
            0x8000 + 16 * self.sprite_tile_id(k),
            self.sprite_col(k, x),
            self.sprite_row(k) % 8,
        )
    }

    /// Attribute bit 4 picks the sprite's palette.
    pub open spec fn sprite_palette(self, k: int) -> u8 {
        if bit_of(self.sprite_attributes(k) as int, 4) {
            self.obp1
        } else {
            self.obp0
        }
    }

    /// The pixel at column `x` once sprite `k` is drawn over `under`.  The
    /// sprite shows where it covers the pixel with a colour index other
    /// than zero, unless attribute bit 7 puts it behind a background whose
    /// colour index there, `field`, is not zero.
    pub open spec fn sprite_pixel(self, k: int, x: int, under: Color, field: u8) -> Color {
        if !self.sprite_on_line(k) || !self.sprite_covers(k, x) {
            under
        } else if bit_of(self.sprite_attributes(k) as int, 7) && field != 0 {
            under
        } else if self.sprite_index(k, x) == 0 {
            under
        } else {
            palette_color(self.sprite_palette(k), self.sprite_index(k, x))
        }
    }

    /// The pixel at column `x` once the first `count` sprites are drawn,
    /// in table order, over `under`.
    pub open spec fn layered(self, x: int, count: nat, under: Color, field: u8) -> Color
        decreases count,
    {
        if count == 0 {
            under
        } else {
            self.sprite_pixel(
                count - 1,
                x,
                self.layered(x, (count - 1) as nat, under, field),
                field,
            )
        }
    }

    /// The pixel at column `x` of this line, over a pixel that showed
    /// `under` before: background, then window, then all forty sprites.
    pub open spec fn pixel(self, x: int, under: Color) -> Color {
        let base = self.field_color(x, under);
        if self.sprites_enabled() {
            self.layered(x, SPRITES as nat, base, self.field_index(x))
        } else {
            base
        }
    }
}

/// The mathematical content of the picture unit.
pub struct PpuView {
    pub vram: Seq<u8>,
    pub oam: Seq<u8>,
    pub lcdc: u8,
    pub stat: u8,
    pub scy: u8,
    pub scx: u8,
    pub ly: u8,
    pub lyc: u8,
    pub wy: u8,
    pub wx: u8,
    pub bgp: u8,
    pub obp0: u8,
    pub obp1: u8,
    /// The dot within the current line.
    pub clock: u16,
    /// The picture, row by row.
    pub screen: Seq<Seq<Color>>,
}

impl PpuView {
    /// The memories and the picture have their sizes, the line counter is
    /// below 154 and the dot counter below 456.
    pub open spec fn wf(self) -> bool {
        &&& self.vram.len() == VRAM_SIZE
        &&& self.oam.len() == OAM_SIZE
        &&& self.screen.len() == HEIGHT
        &&& (forall|y: int| 0 <= y < HEIGHT ==> (#[trigger] self.screen[y]).len() == WIDTH)
        &&& self.ly < LINES
        &&& self.clock < DOTS
    }

    pub open spec fn initial() -> PpuView {
        PpuView {
            vram: Seq::new(VRAM_SIZE as nat, |i: int| 0u8),
            oam: Seq::new(OAM_SIZE as nat, |i: int| 0u8),
            lcdc: 0,
            stat: 0,
            scy: 0,
            scx: 0,
            ly: 0,
            lyc: 0,
            wy: 0,
            wx: 0,
            bgp: 0,
            obp0: 0,
            obp1: 0,
            clock: 0,
            screen: Seq::new(
                HEIGHT as nat,
                |y: int| Seq::new(WIDTH as nat, |x: int| Color::spec_white()),
            ),
        }
    }

    pub open spec fn scene(self) -> Scene {
        Scene {
            vram: self.vram,
            oam: self.oam,
            lcdc: self.lcdc,
            scy: self.scy,
            scx: self.scx,
            ly: self.ly,
            wy: self.wy,
            wx: self.wx,
            bgp: self.bgp,
            obp0: self.obp0,
            obp1: self.obp1,
        }
    }

    /// LCDC bit 7: the display is on.
    pub open spec fn lcd_enabled(self) -> bool {
        bit_of(self.lcdc as int, 7)
    }

    /// The mode that the low bits of STAT show.
    pub open spec fn stat_mode_bits(self) -> u8 {
        self.stat % 4
    }

    /// The low bits of STAT show the mode that the counters are in.
    pub open spec fn mode_in_sync(self) -> bool {
        self.stat_mode_bits() == mode_at(self.ly, self.clock).spec_bits()
    }

    /// The unit with the current line drawn into the picture.
    pub open spec fn rendered(self) -> PpuView {
        PpuView {
            screen: self.screen.update(
                self.ly as int,
                Seq::new(
                    WIDTH as nat,
                    |x: int| self.scene().pixel(x, self.screen[self.ly as int][x]),
                ),
            ),
            ..self
        }
    }

    /// The unit with its counters moved on by one dot.  At the end of a
    /// line the line counter moves on, wrapping after line 153, and bit 2
    /// of STAT is set to whether it equals LYC.
    pub open spec fn advanced(self) -> PpuView {
        let clock = ((self.clock + 1) % (DOTS as int)) as u16;
        if clock == 0 {
            let ly = ((self.ly + 1) % (LINES as int)) as u8;
            PpuView { clock, ly, stat: stat_with_coincidence(self.stat, ly == self.lyc), ..self }
        } else {
            PpuView { clock, ..self }
        }
    }

    /// Whether the move to this dot asks for the status interrupt because
    /// LY has come to equal LYC: STAT bit 6 allows it.
    pub open spec fn coincidence_requested(self) -> bool {
        self.clock == 0 && self.ly == self.lyc && bit_of(self.stat as int, 6)
    }

    /// The mode that begins at the current dot, if one does.
    pub open spec fn entered(self) -> Option<Mode> {
        if self.ly < HEIGHT && self.clock == 0 {
            Some(Mode::OAMSearch)
        } else if self.ly < HEIGHT && self.clock == OAM_SCAN_END {
            Some(Mode::Transfer)
        } else if self.ly < HEIGHT && self.clock == TRANSFER_END {
            Some(Mode::HBlank)
        } else if self.ly == HEIGHT && self.clock == 0 {
            Some(Mode::VBlank)
        } else {
            None
        }
    }

    pub open spec fn with_mode(self, mode: Mode) -> PpuView {
        PpuView { stat: stat_with_mode(self.stat, mode), ..self }
    }

    /// The unit one dot later, the display being on.
    pub open spec fn tick(self) -> PpuView {
        let moved = self.advanced();
        match moved.entered() {
            Some(Mode::HBlank) => moved.with_mode(Mode::HBlank).rendered(),
            Some(mode) => moved.with_mode(mode),
            None => moved,
        }
    }

    /// The pending interrupts one dot later: the status interrupt where
    /// LY meets LYC or an enabled mode begins, the vertical-blank interrupt
    /// where vertical blank begins.
    pub open spec fn tick_pending(self, pending: u8) -> u8 {
        let moved = self.advanced();
        let first = raised(pending, moved.coincidence_requested(), LCD_STAT_BIT);
        match moved.entered() {
            Some(mode) => raised(
                raised(first, mode == Mode::VBlank, VBLANK_BIT),
                stat_requested(moved.stat, mode),
                LCD_STAT_BIT,
            ),
            None => first,
        }
    }

    /// The unit `dots` dots later, the display being on.
    pub open spec fn run(self, dots: nat) -> PpuView
        decreases dots,
    {
        if dots == 0 {
            self
        } else {
            self.run((dots - 1) as nat).tick()
        }
    }

    /// The pending interrupts `dots` dots later, the display being on.
    pub open spec fn run_pending(self, pending: u8, dots: nat) -> u8
        decreases dots,
    {
        if dots == 0 {
            pending
        } else {
            self.run((dots - 1) as nat).tick_pending(self.run_pending(pending, (dots - 1) as nat))
        }
    }

    /// The unit after `steps` cycles: nothing moves while the display is
    /// off.
    pub open spec fn step(self, steps: u8) -> PpuView {
        if self.lcd_enabled() {
            self.run(steps as nat)
        } else {
            self
        }
    }

    /// The pending interrupts after `steps` cycles.
    pub open spec fn step_pending(self, pending: u8, steps: u8) -> u8 {
        if self.lcd_enabled() {
            self.run_pending(pending, steps as nat)
        } else {
            pending
        }
    }

    /// The byte at `addr`: video memory, the sprite table, a register, or
    /// `0xFF` where the unit has nothing.
    pub open spec fn read(self, addr: u16) -> u8 {
        if 0x8000 <= addr <= 0x9fff {
            self.vram[addr - VRAM_BASE]
        } else if 0xfe00 <= addr <= 0xfe9f {
            self.oam[addr - OAM_BASE]
        } else if addr == 0xff40 {
            self.lcdc
        } else if addr == 0xff41 {
            self.stat
        } else if addr == 0xff42 {
            self.scy
        } else if addr == 0xff43 {
            self.scx
        } else if addr == 0xff44 {
            self.ly
        } else if addr == 0xff45 {
            self.lyc
        } else if addr == 0xff47 {
            self.bgp
        } else if addr == 0xff48 {
            self.obp0
        } else if addr == 0xff49 {
            self.obp1
        } else if addr == 0xff4a {
            self.wy
        } else if addr == 0xff4b {
            self.wx
        } else {
            0xff
        }
    }

    /// The unit after a write.  LY cannot be written, and nothing changes
    /// where the unit has nothing.
    pub open spec fn write(self, addr: u16, val: u8) -> PpuView {
        if 0x8000 <= addr <= 0x9fff {
            PpuView { vram: self.vram.update(addr - VRAM_BASE, val), ..self }
        } else if 0xfe00 <= addr <= 0xfe9f {
            PpuView { oam: self.oam.update(addr - OAM_BASE, val), ..self }
        } else if addr == 0xff40 {
            PpuView { lcdc: val, ..self }
        } else if addr == 0xff41 {
            PpuView { stat: val, ..self }
        } else if addr == 0xff42 {
            PpuView { scy: val, ..self }
        } else if addr == 0xff43 {
            PpuView { scx: val, ..self }
        } else if addr == 0xff45 {
            PpuView { lyc: val, ..self }
        } else if addr == 0xff47 {
            PpuView { bgp: val, ..self }
        } else if addr == 0xff48 {
            PpuView { obp0: val, ..self }
        } else if addr == 0xff49 {
            PpuView { obp1: val, ..self }
        } else if addr == 0xff4a {
            PpuView { wy: val, ..self }
        } else if addr == 0xff4b {
            PpuView { wx: val, ..self }
        } else {
            self
        }
    }
}

/// The picture unit.
pub struct Ppu {
    vram: [u8; VRAM_SIZE],
    oam: [u8; OAM_SIZE],
    lcdc: u8,
    stat: u8,
    scy: u8,
    scx: u8,
    ly: u8,
    lyc: u8,
    wy: u8,
    wx: u8,
    bgp: u8,
    obp0: u8,
    obp1: u8,
    clock: u16,
    screen: [[Color; WIDTH]; HEIGHT],
}

impl View for Ppu {
    type V = PpuView;

    closed spec fn view(&self) -> PpuView {
        PpuView {
            vram: self.vram@,
            oam: self.oam@,
            lcdc: self.lcdc,
            stat: self.stat,
            scy: self.scy,
            scx: self.scx,
            ly: self.ly,
            lyc: self.lyc,
            wy: self.wy,
            wx: self.wx,
            bgp: self.bgp,
            obp0: self.obp0,
            obp1: self.obp1,
            clock: self.clock,
            screen: Seq::new(HEIGHT as nat, |y: int| self.screen@[y]@),
        }
    }
}

impl Ppu {
    /// Everything but the picture is as in `other`, and so is every row of
    /// the picture but that of the current line.
    spec fn drew_on_line_of(&self, other: &Ppu) -> bool {
        &&& self@.scene() == other@.scene()
        &&& self.stat == other.stat
        &&& self.lyc == other.lyc
        &&& self.clock == other.clock
        &&& forall|y: int| 0 <= y < HEIGHT && y != self.ly ==> self.screen@[y] == other.screen@[y]
    }

    /// The picture's row of the current line.
    spec fn line(&self) -> Seq<Color> {
        self.screen@[self.ly as int]@
    }

    /// The memories and the picture of every unit have their sizes.
    pub proof fn lemma_sizes(&self)
        ensures
            self@.vram.len() == VRAM_SIZE,
            self@.oam.len() == OAM_SIZE,
            self@.screen.len() == HEIGHT,
            forall|y: int| 0 <= y < HEIGHT ==> (#[trigger] self@.screen[y]).len() == WIDTH,
    {
    }

    /// All memory cleared, all registers zero, the picture white.
    pub fn new() -> (r: Self)
        ensures
            r@ == PpuView::initial(),
            r@.wf(),
    {
        let r = Self {
            vram: [0; VRAM_SIZE],
            oam: [0; OAM_SIZE],
            lcdc: 0,
            stat: 0,
            scy: 0,
            scx: 0,
            ly: 0,
            lyc: 0,
            wy: 0,
            wx: 0,
            bgp: 0,
            obp0: 0,
            obp1: 0,
            clock: 0,
            screen: [[Color::white(); WIDTH]; HEIGHT],
        };
        proof {
            assert(r@.vram =~= PpuView::initial().vram);
            assert(r@.oam =~= PpuView::initial().oam);
            assert forall|y: int| 0 <= y < HEIGHT implies #[trigger] r@.screen[y]
                == PpuView::initial().screen[y] by {
                assert(r@.screen[y] =~= PpuView::initial().screen[y]);
            }
            assert(r@.screen =~= PpuView::initial().screen);
        }
        r
    }

    /// A copy of the picture: 144 rows of 160 pixels.
    pub fn frame(&self) -> (r: [[Color; WIDTH]; HEIGHT])
        ensures
            forall|y: int, x: int|
                0 <= y < HEIGHT && 0 <= x < WIDTH ==> r@[y]@[x] == self@.screen[y][x],
    {
        self.screen
    }

    /// The pixel in row `y` and column `x` of the picture.
    pub fn pixel(&self, y: usize, x: usize) -> (c: Color)
        requires
            y < HEIGHT,
            x < WIDTH,
        ensures
            c == self@.screen[y as int][x as int],
    {
        self.screen[y][x]
    }

    /// Lets `steps` cycles pass, one dot each, while the display is on.
    pub fn step(&mut self, steps: u8, irq: &mut Irq)
        ensures
            final(self)@ == old(self)@.step(steps),
            final(irq)@ == old(self)@.step_pending(old(irq)@, steps),
            old(self)@.wf() ==> final(self)@.wf(),
            old(self)@.wf() && old(self)@.mode_in_sync() ==> final(self)@.mode_in_sync(),
    {
        if !self.lcd_enabled() {
            return ;
        }
        let mut i: u8 = 0;
        while i < steps
            invariant
                i <= steps,
                self@ == old(self)@.run(i as nat),
                irq@ == old(self)@.run_pending(old(irq)@, i as nat),
            decreases steps - i,
        {
            self.single_step(irq);
            i += 1;
        }
        proof {
            lemma_run_keeps_invariants(old(self)@, steps as nat);
        }
    }

    /// Lets one dot pass.
    pub fn single_step(&mut self, irq: &mut Irq)
        ensures
            final(self)@ == old(self)@.tick(),
            final(irq)@ == old(self)@.tick_pending(old(irq)@),
    {
        let clock: u16 = ((self.clock as u32 + 1) % (DOTS as u32)) as u16;
        self.clock = clock;
        if clock == 0 {
            self.ly = ((self.ly as u16 + 1) % LINES) as u8;
            self.set_lyc_ly_flag(irq);
        }
        assert(self@ == old(self)@.advanced());
        if (self.ly as usize) < HEIGHT {
            if clock == 0 {
                self.set_mode(Mode::OAMSearch, irq);
            } else if clock == OAM_SCAN_END {
                self.set_mode(Mode::Transfer, irq);
            } else if clock == TRANSFER_END {
                self.set_mode(Mode::HBlank, irq);
                self.draw_line();
            }
        } else if self.ly as usize == HEIGHT && clock == 0 {
            self.set_mode(Mode::VBlank, irq);
        }
    }

    pub fn read_byte(&self, addr: u16) -> (r: u8)
        ensures
            r == self@.read(addr),
    {
        if 0x8000 <= addr && addr <= 0x9fff {
            self.vram[(addr - VRAM_BASE) as usize]
        } else if 0xfe00 <= addr && addr <= 0xfe9f {
            self.oam[(addr - OAM_BASE) as usize]
        } else if addr == 0xff40 {
            self.lcdc
        } else if addr == 0xff41 {
            self.stat
        } else if addr == 0xff42 {
            self.scy
        } else if addr == 0xff43 {
            self.scx
        } else if addr == 0xff44 {
            self.ly
        } else if addr == 0xff45 {
            self.lyc
        } else if addr == 0xff47 {
            self.bgp
        } else if addr == 0xff48 {
            self.obp0
        } else if addr == 0xff49 {
            self.obp1
        } else if addr == 0xff4a {
            self.wy
        } else if addr == 0xff4b {
            self.wx
        } else {
            0xff
        }
    }

    pub fn write_byte(&mut self, addr: u16, val: u8)
        ensures
            final(self)@ == old(self)@.write(addr, val),
            old(self)@.wf() ==> final(self)@.wf(),
    {
        if 0x8000 <= addr && addr <= 0x9fff {
            self.vram[(addr - VRAM_BASE) as usize] = val;
        } else if 0xfe00 <= addr && addr <= 0xfe9f {
            self.oam[(addr - OAM_BASE) as usize] = val;
        } else if addr == 0xff40 {
            self.lcdc = val;
        } else if addr == 0xff41 {
            self.stat = val;
        } else if addr == 0xff42 {
            self.scy = val;
        } else if addr == 0xff43 {
            self.scx = val;
        } else if addr == 0xff45 {
            self.lyc = val;
        } else if addr == 0xff47 {
            self.bgp = val;
        } else if addr == 0xff48 {
            self.obp0 = val;
        } else if addr == 0xff49 {
            self.obp1 = val;
        } else if addr == 0xff4a {
            self.wy = val;
        } else if addr == 0xff4b {
            self.wx = val;
        }
    }

    /// Puts `mode` into the low bits of STAT and requests the interrupts
    /// that entering it calls for.
    fn set_mode(&mut self, mode: Mode, irq: &mut Irq)
        ensures
            final(self)@ == old(self)@.with_mode(mode),
            final(irq)@ == raised(
                raised(old(irq)@, mode == Mode::VBlank, VBLANK_BIT),
                stat_requested(old(self)@.stat, mode),
                LCD_STAT_BIT,
            ),
            final(self)@.stat_mode_bits() == mode.spec_bits(),
    {
        let fire_stat_interrupt = match mode {
            Mode::HBlank => bit(self.stat, 3),
            Mode::VBlank => {
                irq.vblank_interrupt();
                bit(self.stat, 4)
            },
            Mode::OAMSearch => bit(self.stat, 5),
            Mode::Transfer => false,
        };
        self.stat = (self.stat / 4) * 4 + mode.bits();
        if fire_stat_interrupt {
            irq.lcd_stat_interrupt();
        }
    }

    /// Sets bit 2 of STAT to whether LY equals LYC, and requests the
    /// status interrupt where they are equal and bit 6 allows it.
    fn set_lyc_ly_flag(&mut self, irq: &mut Irq)
        ensures
            final(self)@ == (PpuView {
                stat: stat_with_coincidence(old(self)@.stat, old(self)@.ly == old(self)@.lyc),
                ..old(self)@
            }),
            final(irq)@ == raised(
                old(irq)@,
                old(self)@.ly == old(self)@.lyc && bit_of(final(self)@.stat as int, 6),
                LCD_STAT_BIT,
            ),
    {
        if self.lyc == self.ly {
            self.stat = set_bit(self.stat, 2);
            if bit(self.stat, 6) {
                irq.lcd_stat_interrupt();
            }
        } else {
            self.stat = clear_bit(self.stat, 2);
        }
    }

    pub fn lcd_enabled(&self) -> (r: bool)
        ensures
            r == self@.lcd_enabled(),
    {
        bit(self.lcdc, 7)
    }

    pub fn window_tile_map_base(&self) -> (r: u16)
        ensures
            r == self@.scene().window_tile_map_base(),
    {
        if bit(self.lcdc, 6) {
            0x9c00
        } else {
            0x9800
        }
    }

    pub fn window_enabled(&self) -> (r: bool)
        ensures
            r == self@.scene().window_enabled(),
    {
        bit(self.lcdc, 5)
    }

    /// Where tile patterns are counted from: `0x8000`, or `0x8800` for
    /// signed tile ids.
    pub fn tile_data_base(&self) -> (r: u16)
        ensures
            r == (if bit_of(self@.lcdc as int, 4) { 0x8000int } else { 0x8800int }),
    {
        if bit(self.lcdc, 4) {
            0x8000
        } else {
            0x8800
        }
    }

    pub fn bg_tile_map_base(&self) -> (r: u16)
        ensures
            r == self@.scene().bg_tile_map_base(),
    {
        if bit(self.lcdc, 3) {
            0x9c00
        } else {
            0x9800
        }
    }

    pub fn vertical_sprite_size(&self) -> (r: u8)
        ensures
            r == self@.scene().sprite_height(),
    {
        if bit(self.lcdc, 2) {
            16
        } else {
            8
        }
    }

    pub fn sprites_enabled(&self) -> (r: bool)
        ensures
            r == self@.scene().sprites_enabled(),
    {
        bit(self.lcdc, 1)
    }

    pub fn bg_and_window_enabled(&self) -> (r: bool)
        ensures
            r == self@.scene().bg_and_window_enabled(),
    {
        bit(self.lcdc, 0)
    }

    /// Where the pattern of background or window tile `tile_id` starts.
    pub fn bg_window_tile_addr(&self, tile_id: u8) -> (r: u16)
        ensures
            r == self@.scene().tile_addr(tile_id),
            0x8000 <= r <= 0x97f0,
    {
        let tile_id = tile_id as u16;
        let tile_data_base_addr = self.tile_data_base();
        if tile_data_base_addr == 0x8000 {
            tile_data_base_addr + 16 * tile_id
        } else if tile_id < 128 {
            0x9000 + 16 * tile_id
        } else {
            tile_data_base_addr + 16 * (tile_id - 128)
        }
    }

    /// The colour index of pixel (`tile_x`, `tile_y`) of the tile pattern
    /// at `tile_addr`.
    fn tile_color_index(&self, tile_addr: u16, tile_x: u8, tile_y: u8) -> (r: u8)
        requires
            0x8000 <= tile_addr < 0xa000,
            tile_x < 8,
            tile_y < 8,
        ensures
            r == self@.scene().tile_color_index(tile_addr as int, tile_x as int, tile_y as int),
            r < 4,
    {
        let offset = (tile_y * 2) as u16;
        let low_byte = self.vram[(tile_addr + offset - VRAM_BASE) as usize];
        let high_byte = self.vram[(tile_addr + offset + 1 - VRAM_BASE) as usize];
        let low: u8 = if bit(low_byte, 7 - tile_x) { 1 } else { 0 };
        let high: u8 = if bit(high_byte, 7 - tile_x) { 2 } else { 0 };
        high + low
    }

    /// The colour index and the colour of pixel (`tile_x`, `tile_y`) of
    /// background or window tile `tile_id`.
    fn bg_window_color(&self, tile_id: u8, tile_x: u8, tile_y: u8) -> (r: (u8, Color))
        requires
            tile_x < 8,
            tile_y < 8,
        ensures
            r.0 == self@.scene().tile_color_index(
                self@.scene().tile_addr(tile_id),
                tile_x as int,
                tile_y as int,
            ),
            r.1 == palette_color(self@.bgp, r.0),
    {
        let tile_addr = self.bg_window_tile_addr(tile_id);
        let color_index = self.tile_color_index(tile_addr, tile_x, tile_y);
        (color_index, shade_color(self.bgp, color_index))
    }

    /// The colour index and the colour at pixel (`px`, `py`) of the tile
    /// map at `map_base`.
    fn map_pixel(&self, map_base: u16, px: u16, py: u16) -> (r: (u8, Color))
        requires
            map_base == 0x9800 || map_base == 0x9c00,
            px < 256,
            py < 256,
        ensures
            r.0 == self@.scene().map_index(map_base as int, px as int, py as int),
            r.1 == palette_color(self@.bgp, r.0),
    {
        let tile_map_index = (px / 8) + 32 * (py / 8);
        let tile_id = self.vram[(map_base + tile_map_index - VRAM_BASE) as usize];
        self.bg_window_color(tile_id, (px % 8) as u8, (py % 8) as u8)
    }

    /// Draws the current line: background and window where LCDC bit 0
    /// allows them, then the sprites where bit 1 does.
    fn draw_line(&mut self)
        requires
            old(self)@.ly < HEIGHT,
        ensures
            final(self)@ == old(self)@.rendered(),
    {
        let mut indices = [0u8; WIDTH];
        if self.bg_and_window_enabled() {
            self.draw_background_line(&mut indices);
            self.draw_window_line(&mut indices);
        }
        let ghost field = self.line();
        let ghost scene = old(self)@.scene();
        assert forall|x: int| 0 <= x < WIDTH implies #[trigger] indices@[x] == scene.field_index(
            x,
        ) by {}
        assert forall|x: int| 0 <= x < WIDTH implies #[trigger] field[x] == scene.field_color(
            x,
            old(self).line()[x],
        ) by {
            assert(indices@[x] == scene.field_index(x));
        }
        if self.sprites_enabled() {
            self.draw_sprites(&indices);
        }
        proof {
            let ly = self.ly as int;
            assert forall|x: int| 0 <= x < WIDTH implies #[trigger] self.line()[x] == scene.pixel(
                x,
                old(self).line()[x],
            ) by {
                assert(indices@[x] == scene.field_index(x));
                assert(field[x] == scene.field_color(x, old(self).line()[x]));
            }
            assert(self@.screen[ly] == self.line());
            assert(old(self)@.screen[ly] == old(self).line());
            assert(self@.screen[ly] =~= old(self)@.rendered().screen[ly]);
            assert forall|y: int| 0 <= y < HEIGHT implies #[trigger] self@.screen[y] == old(
                self,
            )@.rendered().screen[y] by {}
            assert(self@.screen =~= old(self)@.rendered().screen);
        }
    }

    /// Draws the background over the whole of the current line and notes
    /// its colour indices.
    fn draw_background_line(&mut self, indices: &mut [u8; WIDTH])
        requires
            old(self).ly < HEIGHT,
        ensures
            final(self).drew_on_line_of(old(self)),
            forall|x: int|
                0 <= x < WIDTH ==> #[trigger] final(indices)@[x] == old(self)@.scene().bg_index(x),
            forall|x: int|
                0 <= x < WIDTH ==> #[trigger] final(self).line()[x] == palette_color(
                    old(self).bgp,
                    old(self)@.scene().bg_index(x),
                ),
    {
        let y = self.ly;
        let tile_map_base = self.bg_tile_map_base();
        let pixel_y = (y as u16 + self.scy as u16) % 256;
        let mut x: usize = 0;
        while x < WIDTH
            invariant
                x <= WIDTH,
                y == self.ly,
                y < HEIGHT,
                pixel_y == (y + self.scy) % 256,
                tile_map_base == self@.scene().bg_tile_map_base(),
                self.drew_on_line_of(old(self)),
                forall|i: int|
                    0 <= i < x ==> #[trigger] indices@[i] == old(self)@.scene().bg_index(i),
                forall|i: int|
                    0 <= i < x ==> #[trigger] self.line()[i] == palette_color(
                        old(self).bgp,
                        old(self)@.scene().bg_index(i),
                    ),
            decreases WIDTH - x,
        {
            let pixel_x = (x as u16 + self.scx as u16) % 256;
            let (index, color) = self.map_pixel(tile_map_base, pixel_x, pixel_y);
            let ghost before = self.line();
            self.screen[y as usize][x] = color;
            indices[x] = index;
            assert(self.line() == before.update(x as int, color));
            x += 1;
        }
    }

    /// Draws the window over the part of the current line that it covers.
    fn draw_window_line(&mut self, indices: &mut [u8; WIDTH])
        requires
            old(self).ly < HEIGHT,
        ensures
            final(self).drew_on_line_of(old(self)),
            forall|x: int|
                0 <= x < WIDTH ==> #[trigger] final(indices)@[x] == (if old(
                    self,
                )@.scene().window_covers(x) {
                    old(self)@.scene().window_index(x)
                } else {
                    old(indices)@[x]
                }),
            forall|x: int|
                0 <= x < WIDTH ==> #[trigger] final(self).line()[x] == (if old(
                    self,
                )@.scene().window_covers(x) {
                    palette_color(old(self).bgp, old(self)@.scene().window_index(x))
                } else {
                    old(self).line()[x]
                }),
    {
        if !self.window_enabled() || self.ly < self.wy {
            return ;
        }
        let y = self.ly;
        let tile_map_base = self.window_tile_map_base();
        let pixel_y = (y - self.wy) as u16;
        let window_start: usize = if self.wx < 7 { 0 } else { (self.wx - 7) as usize };
        let mut x: usize = window_start;
        while x < WIDTH
            invariant
                window_start <= x,
                window_start == (if self.wx < 7 { 0int } else { self.wx - 7 }),
                y == self.ly,
                y < HEIGHT,
                y >= self.wy,
                pixel_y == y - self.wy,
                self@.scene().window_enabled(),
                tile_map_base == self@.scene().window_tile_map_base(),
                self.drew_on_line_of(old(self)),
                forall|i: int|
                    0 <= i < WIDTH ==> #[trigger] indices@[i] == (if window_start <= i < x {
                        old(self)@.scene().window_index(i)
                    } else {
                        old(indices)@[i]
                    }),
                forall|i: int|
                    0 <= i < WIDTH ==> #[trigger] self.line()[i] == (if window_start <= i < x {
                        palette_color(old(self).bgp, old(self)@.scene().window_index(i))
                    } else {
                        old(self).line()[i]
                    }),
            decreases WIDTH + 1 - x,
        {
            let pixel_x = x as u16 + 7 - self.wx as u16;
            let (index, color) = self.map_pixel(tile_map_base, pixel_x, pixel_y);
            let ghost before = self.line();
            self.screen[y as usize][x] = color;
            indices[x] = index;
            assert(self.line() == before.update(x as int, color));
            x += 1;
        }
    }

    /// Draws every sprite that crosses the current line, in table order.
    fn draw_sprites(&mut self, indices: &[u8; WIDTH])
        requires
            old(self).ly < HEIGHT,
        ensures
            final(self).drew_on_line_of(old(self)),
            forall|x: int|
                0 <= x < WIDTH ==> #[trigger] final(self).line()[x] == old(self)@.scene().layered(
                    x,
                    SPRITES as nat,
                    old(self).line()[x],
                    indices@[x],
                ),
    {
        let mut sprite: usize = 0;
        while sprite < SPRITES
            invariant
                sprite <= SPRITES,
                self.ly < HEIGHT,
                self.drew_on_line_of(old(self)),
                forall|x: int|
                    0 <= x < WIDTH ==> #[trigger] self.line()[x] == old(self)@.scene().layered(
                        x,
                        sprite as nat,
                        old(self).line()[x],
                        indices@[x],
                    ),
            decreases SPRITES - sprite,
        {
            self.draw_sprite(sprite, indices);
            sprite += 1;
        }
    }

    /// Draws sprite `sprite` where it crosses the current line.
    fn draw_sprite(&mut self, sprite: usize, indices: &[u8; WIDTH])
        requires
            old(self).ly < HEIGHT,
            sprite < SPRITES,
        ensures
            final(self).drew_on_line_of(old(self)),
            forall|x: int|
                0 <= x < WIDTH ==> #[trigger] final(self).line()[x] == old(
                    self,
                )@.scene().sprite_pixel(sprite as int, x, old(self).line()[x], indices@[x]),
    {
        let y = self.ly;
        let tile_y_size = self.vertical_sprite_size();
        let y_pos = self.oam[4 * sprite];
        let x_pos = self.oam[4 * sprite + 1];
        if y + 16 < y_pos {
            return ;
        }
        let row = y + 16 - y_pos;
        if row >= tile_y_size {
            return ;
        }
        let tile_id = self.oam[4 * sprite + 2];
        let attributes = self.oam[4 * sprite + 3];
        let x_flip = bit(attributes, 5);
        let y_flip = bit(attributes, 6);
        let bg_over_sprite = bit(attributes, 7);
        let palette = if bit(attributes, 4) { self.obp1 } else { self.obp0 };
        let tile_y = if y_flip { tile_y_size - row - 1 } else { row };
        let tile_id: u16 = if tile_y_size == 8 {
            tile_id as u16
        } else if tile_y < 8 {
            ((tile_id / 2) * 2) as u16
        } else {
            ((tile_id / 2) * 2 + 1) as u16
        };
        let tile_addr: u16 = 0x8000 + tile_id * 16;
        let ghost scene = self@.scene();
        let ghost k = sprite as int;
        assert(scene.sprite_on_line(k));
        assert(tile_y == scene.sprite_row(k));
        assert(tile_id == scene.sprite_tile_id(k));
        assert(palette == scene.sprite_palette(k));
        let mut x: usize = 0;
        while x < WIDTH
            invariant
                x <= WIDTH,
                y == self.ly,
                y < HEIGHT,
                tile_y < 16,
                x_pos == scene.sprite_x(k),
                0x8000 <= tile_addr <= 0x8ff0,
                tile_addr == 0x8000 + 16 * scene.sprite_tile_id(k),
                tile_y == scene.sprite_row(k),
                palette == scene.sprite_palette(k),
                x_flip == bit_of(scene.sprite_attributes(k) as int, 5),
                bg_over_sprite == bit_of(scene.sprite_attributes(k) as int, 7),
                scene.sprite_on_line(k),
                scene == old(self)@.scene(),
                self.drew_on_line_of(old(self)),
                forall|i: int|
                    0 <= i < WIDTH ==> #[trigger] self.line()[i] == (if i < x {
                        scene.sprite_pixel(k, i, old(self).line()[i], indices@[i])
                    } else {
                        old(self).line()[i]
                    }),
            decreases WIDTH - x,
        {
            let column = x as u16 + 8;
            let ghost before = self.line();
            let ghost at = x as int;
            if !(bg_over_sprite && indices[x] != 0) && column >= x_pos as u16 && column
                - (x_pos as u16) < 8 {
                let col = (column - x_pos as u16) as u8;
                let tile_x = if x_flip { 7 - col } else { col };
                let color_index = self.tile_color_index(tile_addr, tile_x, tile_y % 8);
                assert(scene.sprite_covers(k, at));
                assert(tile_x == scene.sprite_col(k, at));
                assert(color_index == scene.sprite_index(k, at));
                if color_index != 0 {
                    let color = shade_color(palette, color_index);
                    self.screen[y as usize][x] = color;
                    assert(self.line() == before.update(at, color));
                }
            }
            assert(self.line()[at] == scene.sprite_pixel(
                k,
                at,
                old(self).line()[at],
                indices@[at],
            ));
            x += 1;
        }
    }
}

/// One dot keeps the line counter below 154 and the dot counter below 456,
/// and keeps the mode bits of STAT in step with the counters.
pub proof fn lemma_tick_keeps_invariants(v: PpuView)
    requires
        v.wf(),
    ensures
        v.tick().wf(),
        v.tick().ly < LINES,
        v.tick().clock < DOTS,
        v.mode_in_sync() ==> v.tick().mode_in_sync(),
        v.advanced().entered().is_some() ==> v.tick().mode_in_sync(),
{
    let moved = v.advanced();
    assert(moved.stat % 4 == v.stat % 4) by {
        crate::bits::lemma_bit_room(v.stat, 2);
    }
    match moved.entered() {
        Some(Mode::HBlank) => {
            let drawn = moved.with_mode(Mode::HBlank).rendered();
            assert forall|y: int| 0 <= y < HEIGHT implies (#[trigger] drawn.screen[y]).len()
                == WIDTH by {}
        },
        Some(mode) => {},
        None => {},
    }
}

/// Any number of dots keeps the counters in range and the mode bits of
/// STAT in step with them.
pub proof fn lemma_run_keeps_invariants(v: PpuView, dots: nat)
    ensures
        v.wf() ==> v.run(dots).wf(),
        v.wf() && v.mode_in_sync() ==> v.run(dots).mode_in_sync(),
        v.run(dots).lcdc == v.lcdc,
    decreases dots,
{
    if dots > 0 {
        lemma_run_keeps_invariants(v, (dots - 1) as nat);
        if v.wf() {
            lemma_tick_keeps_invariants(v.run((dots - 1) as nat));
        }
    }
}

/// Exactly one mode is shown at any time: the mode bits of STAT stand for
/// one of the four modes, and in step with the counters for the one that
/// the counters are in.
pub proof fn lemma_one_mode(v: PpuView)
    ensures
        v.stat_mode_bits() == Mode::HBlank.spec_bits() || v.stat_mode_bits()
            == Mode::VBlank.spec_bits() || v.stat_mode_bits() == Mode::OAMSearch.spec_bits()
            || v.stat_mode_bits() == Mode::Transfer.spec_bits(),
        forall|a: Mode, b: Mode| a.spec_bits() == b.spec_bits() ==> a == b,
        v.mode_in_sync() && v.ly >= HEIGHT ==> v.stat_mode_bits() == Mode::VBlank.spec_bits(),
{
}

/// After any number of dots the dot counter has gone round modulo 456, and
/// the line counter has gone up once for each line that ended, modulo 154.
pub proof fn lemma_counters_after_run(v: PpuView, dots: nat)
    requires
        v.wf(),
    ensures
        v.run(dots).clock == (v.clock + dots) % (DOTS as int),
        v.run(dots).ly == (v.ly + (v.clock + dots) / (DOTS as int)) % (LINES as int),
    decreases dots,
{
    if dots > 0 {
        let before = v.run((dots - 1) as nat);
        lemma_counters_after_run(v, (dots - 1) as nat);
        lemma_run_keeps_invariants(v, (dots - 1) as nat);
        let passed = v.clock + dots - 1;
        let after = before.tick();
        assert(after.clock == before.advanced().clock && after.ly == before.advanced().ly);
        assert(before.clock == passed % 456);
        assert((passed + 1) % 456 == (passed % 456 + 1) % 456);
        assert((passed + 1) / 456 == passed / 456 + (if passed % 456 == 455 { 1int } else { 0 }));
        let line = v.ly + passed / 456;
        assert((line + 1) % 154 == (line % 154 + 1) % 154);
    }
}

} // verus!
