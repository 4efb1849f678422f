//! The bus: every read and write of the processor is routed by its address
//! to the component that owns it.
//!
//! | range             | owner                         |
//! |-------------------|-------------------------------|
//! | `0x0000..=0x7FFF` | cartridge                     |
//! | `0x8000..=0x9FFF` | video memory                  |
//! | `0xA000..=0xBFFF` | external memory (none)        |
//! | `0xC000..=0xDFFF` | work memory                   |
//! | `0xE000..=0xFDFF` | mirror of `0xC000..=0xDDFF`   |
//! | `0xFE00..=0xFE9F` | sprite table                  |
//! | `0xFEA0..=0xFEFF` | unusable, reads as zero       |
//! | `0xFF00..=0xFF7F` | input and output registers    |
//! | `0xFF80..=0xFFFE` | high memory                   |
//! | `0xFFFF`          | interrupt enable              |

use vstd::prelude::*;
use crate::cartridge::{Cartridge, CartridgeView};
use crate::irq::{raised, Irq, JOYPAD_BIT, TIMER_BIT};
use crate::joypad::{Button, JoyPad, JoyPadView};
use crate::ppu::{Color, Ppu, PpuView, HEIGHT, OAM_BASE, OAM_SIZE, WIDTH};
use crate::registers::{high_byte, low_byte, pair};
use crate::sound::{Apu, ApuView};
use crate::timer::{Timer, TimerView};

verus! {

pub const WRAM_SIZE: usize = 0x2000;

pub const HRAM_SIZE: usize = 0x7f;

pub const SERIAL_RAM: usize = 0x2;

pub const WRAM_BASE: u16 = 0xc000;

pub const ECHO_BASE: u16 = 0xe000;

pub const HRAM_BASE: u16 = 0xff80;

pub const SERIAL_BASE: u16 = 0xff01;

/// Address of the joypad register.
pub const JOYPAD_ADDR: u16 = 0xff00;

/// Address of the pending-interrupt register IF.
pub const IF_ADDR: u16 = 0xff0f;

/// Address of the register that starts a transfer into the sprite table.
pub const DMA_ADDR: u16 = 0xff46;

/// Address of the interrupt-enable register IE.
pub const IE_ADDR: u16 = 0xffff;

/// What an address without a readable owner reads as.
pub const OPEN_BUS: u8 = 0xff;

/// The address after `addr`, wrapping at the top of the address space.
pub open spec fn next_addr(addr: u16) -> u16 {
    ((addr + 1) % 65536) as u16
}

/// The mathematical content of the bus and of everything behind it.
pub struct MmuView {
    pub timer: TimerView,
    pub apu: ApuView,
    /// The pending-interrupt register IF.
    pub irq: u8,
    pub ppu: PpuView,
    pub joypad: JoyPadView,
    pub cartridge: CartridgeView,
    pub wram: Seq<u8>,
    pub hram: Seq<u8>,
    pub serial_ram: Seq<u8>,
    /// The interrupt-enable register IE.
    pub interrupt_enable: u8,
}

impl MmuView {
    pub open spec fn wf(self) -> bool {
        &&& self.timer.wf()
        &&& self.apu.wf()
        &&& self.ppu.wf()
        &&& self.joypad.wf()
        &&& self.cartridge.wf()
        &&& self.wram.len() == WRAM_SIZE
        &&& self.hram.len() == HRAM_SIZE
        &&& self.serial_ram.len() == SERIAL_RAM
    }

    /// The byte that the processor reads at `addr`.
    pub open spec fn read(self, addr: u16) -> u8 {
        if addr <= 0x7fff {
            self.cartridge.read(addr)
        } else if addr <= 0x9fff {
            self.ppu.read(addr)
        } else if addr <= 0xbfff {
            OPEN_BUS
        } else if addr <= 0xdfff {
            self.wram[addr - WRAM_BASE]
        } else if addr <= 0xfdff {
            self.wram[addr - ECHO_BASE]
        } else if addr <= 0xfe9f {
            self.ppu.read(addr)
        } else if addr <= 0xfeff {
            0
        } else if addr == JOYPAD_ADDR {
            self.joypad.read()
        } else if 0xff01 <= addr <= 0xff02 {
            self.serial_ram[addr - SERIAL_BASE]
        } else if 0xff04 <= addr <= 0xff07 {
            self.timer.read(addr)
        } else if addr == IF_ADDR {
            self.irq
        } else if 0xff10 <= addr <= 0xff26 || 0xff30 <= addr <= 0xff3f {
            self.apu.read(addr)
        } else if 0xff40 <= addr <= 0xff45 || 0xff47 <= addr <= 0xff4b {
            self.ppu.read(addr)
        } else if 0xff80 <= addr <= 0xfffe {
            self.hram[addr - HRAM_BASE]
        } else if addr == IE_ADDR {
            self.interrupt_enable
        } else {
            OPEN_BUS
        }
    }

    /// The bus after a transfer from page `value`: the 160 bytes that
    /// start at `value * 0x100` stand in the sprite table.
    pub open spec fn dma_transfer(self, value: u8) -> MmuView {
        MmuView {
            ppu: PpuView {
                oam: Seq::new(OAM_SIZE as nat, |i: int| self.read((value * 0x100 + i) as u16)),
                ..self.ppu
            },
            ..self
        }
    }

    /// The bus after the processor has written `value` at `addr`.
    pub open spec fn write(self, addr: u16, value: u8) -> MmuView {
        if addr <= 0x7fff {
            MmuView { cartridge: self.cartridge.write(addr, value), ..self }
        } else if addr <= 0x9fff {
            MmuView { ppu: self.ppu.write(addr, value), ..self }
        } else if addr <= 0xbfff {
            self
        } else if addr <= 0xdfff {
            MmuView { wram: self.wram.update(addr - WRAM_BASE, value), ..self }
        } else if addr <= 0xfdff {
            MmuView { wram: self.wram.update(addr - ECHO_BASE, value), ..self }
        } else if addr <= 0xfe9f {
            MmuView { ppu: self.ppu.write(addr, value), ..self }
        } else if addr <= 0xfeff {
            self
        } else if addr == JOYPAD_ADDR {
            MmuView { joypad: self.joypad.write(value), ..self }
        } else if 0xff01 <= addr <= 0xff02 {
            MmuView { serial_ram: self.serial_ram.update(addr - SERIAL_BASE, value), ..self }
        } else if 0xff04 <= addr <= 0xff07 {
            MmuView { timer: self.timer.write(addr, value), ..self }
        } else if addr == IF_ADDR {
            MmuView { irq: value, ..self }
        } else if 0xff10 <= addr <= 0xff26 || 0xff30 <= addr <= 0xff3f {
            MmuView { apu: self.apu.write(addr, value), ..self }
        } else if 0xff40 <= addr <= 0xff45 || 0xff47 <= addr <= 0xff4b {
            MmuView { ppu: self.ppu.write(addr, value), ..self }
        } else if addr == DMA_ADDR {
            self.dma_transfer(value)
        } else if addr == crate::cartridge::BOOT_LATCH {
            MmuView { cartridge: self.cartridge.write(addr, value), ..self }
        } else if 0xff80 <= addr <= 0xfffe {
            MmuView { hram: self.hram.update(addr - HRAM_BASE, value), ..self }
        } else if addr == IE_ADDR {
            MmuView { interrupt_enable: value, ..self }
        } else {
            self
        }
    }

    /// The word at `addr`: its low byte at `addr`, its high byte after it.
    pub open spec fn read_word(self, addr: u16) -> u16 {
        pair(self.read(next_addr(addr)), self.read(addr))
    }

    /// The bus after a word is written, low byte first.
    pub open spec fn write_word(self, addr: u16, value: u16) -> MmuView {
        self.write(addr, low_byte(value)).write(next_addr(addr), high_byte(value))
    }

    /// The bus after `steps` cycles: the picture unit catches up first,
    /// then the sound unit, then the timer.
    pub open spec fn step(self, steps: u8) -> MmuView {
        MmuView {
            ppu: self.ppu.step(steps),
            apu: self.apu.step(steps as nat),
            timer: self.timer.step(steps),
            irq: raised(
                self.ppu.step_pending(self.irq, steps),
                self.timer.fires(steps),
                TIMER_BIT,
            ),
            ..self
        }
    }

    /// The bus after `button` went down.
    pub open spec fn press(self, button: Button) -> MmuView {
        MmuView { joypad: self.joypad.press(button), irq: self.irq | JOYPAD_BIT, ..self }
    }

    /// The bus after `button` came up.
    pub open spec fn release(self, button: Button) -> MmuView {
        MmuView { joypad: self.joypad.release(button), ..self }
    }

    /// The bus after the pending sound output has been taken.
    pub open spec fn drained(self) -> MmuView {
        MmuView { apu: self.apu.drained(), ..self }
    }
}

/// The bus with the components behind it.
pub struct Mmu {
    timer: Timer,
    apu: Apu,
    irq: Irq,
    ppu: Ppu,
    joypad: JoyPad,
    cartridge: Cartridge,
    wram: [u8; WRAM_SIZE],
    hram: [u8; HRAM_SIZE],
    serial_ram: [u8; SERIAL_RAM],
    interrupt_enable: u8,
}

impl View for Mmu {
    type V = MmuView;

    closed spec fn view(&self) -> MmuView {
        MmuView {
            timer: self.timer@,
            apu: self.apu@,
            irq: self.irq@,
            ppu: self.ppu@,
            joypad: self.joypad@,
            cartridge: self.cartridge@,
            wram: self.wram@,
            hram: self.hram@,
            serial_ram: self.serial_ram@,
            interrupt_enable: self.interrupt_enable,
        }
    }
}

impl Mmu {
    /// A bus over the given components, with a fresh timer and cleared
    /// memories.
    pub fn new(apu: Apu, irq: Irq, ppu: Ppu, joypad: JoyPad, cartridge: Cartridge) -> (r: Self)
        ensures
            r@ == (MmuView {
                timer: TimerView::initial(),
                apu: apu@,
                irq: irq@,
                ppu: ppu@,
                joypad: joypad@,
                cartridge: cartridge@,
                wram: Seq::new(WRAM_SIZE as nat, |i: int| 0u8),
                hram: Seq::new(HRAM_SIZE as nat, |i: int| 0u8),
                serial_ram: Seq::new(SERIAL_RAM as nat, |i: int| 0u8),
                interrupt_enable: 0,
            }),
            apu@.wf() && ppu@.wf() && joypad@.wf() ==> r@.wf(),
    {
        let r = Self {
            timer: Timer::new(),
            apu,
            irq,
            ppu,
            joypad,
            cartridge,
            wram: [0; WRAM_SIZE],
            hram: [0; HRAM_SIZE],
            serial_ram: [0; SERIAL_RAM],
            interrupt_enable: 0,
        };
        proof {
            assert(r@.wram =~= Seq::new(WRAM_SIZE as nat, |i: int| 0u8));
            assert(r@.hram =~= Seq::new(HRAM_SIZE as nat, |i: int| 0u8));
            assert(r@.serial_ram =~= Seq::new(SERIAL_RAM as nat, |i: int| 0u8));
            r.cartridge.lemma_wf();
        }
        r
    }

    /// Lets the components behind the bus catch up by `steps` cycles.
    pub fn step(&mut self, steps: u8)
        ensures
            final(self)@ == old(self)@.step(steps),
            old(self)@.wf() ==> final(self)@.wf(),
            old(self)@.wf() && old(self)@.ppu.mode_in_sync() ==> final(self)@.ppu.mode_in_sync(),
    {
        self.ppu.step(steps, &mut self.irq);
        self.apu.step(steps);
        self.timer.step(steps, &mut self.irq);
    }

    pub fn interrupt_enable(&self) -> (r: u8)
        ensures
            r == self@.interrupt_enable,
    {
        self.interrupt_enable
    }

    /// The pending-interrupt register IF.
    pub fn interrupt_flag(&self) -> (r: u8)
        ensures
            r == self@.irq,
    {
        self.irq.interrupt_flag()
    }

    pub fn set_interrupt_flag(&mut self, value: u8)
        ensures
            final(self)@ == (MmuView { irq: value, ..old(self)@ }),
    {
        self.irq.set_interrupt_flag(value);
    }

    pub fn read_byte(&self, addr: u16) -> (r: u8)
        ensures
            r == self@.read(addr),
    {
        if addr <= 0x7fff {
            self.cartridge.read_byte(addr)
        } else if addr <= 0x9fff {
            self.ppu.read_byte(addr)
        } else if addr <= 0xbfff {
            OPEN_BUS
        } else if addr <= 0xdfff {
            self.wram[(addr - WRAM_BASE) as usize]
        } else if addr <= 0xfdff {
            self.wram[(addr - ECHO_BASE) as usize]
        } else if addr <= 0xfe9f {
            self.ppu.read_byte(addr)
        } else if addr <= 0xfeff {
            0
        } else if addr == JOYPAD_ADDR {
            self.joypad.read_byte()
        } else if 0xff01 <= addr && addr <= 0xff02 {
            self.serial_ram[(addr - SERIAL_BASE) as usize]
        } else if 0xff04 <= addr && addr <= 0xff07 {
            self.timer.read_byte(addr)
        } else if addr == IF_ADDR {
            self.irq.interrupt_flag()
        } else if (0xff10 <= addr && addr <= 0xff26) || (0xff30 <= addr && addr <= 0xff3f) {
            self.apu.read_byte(addr)
        } else if (0xff40 <= addr && addr <= 0xff45) || (0xff47 <= addr && addr <= 0xff4b) {
            self.ppu.read_byte(addr)
        } else if 0xff80 <= addr && addr <= 0xfffe {
            self.hram[(addr - HRAM_BASE) as usize]
        } else if addr == IE_ADDR {
            self.interrupt_enable
        } else {
            OPEN_BUS
        }
    }

    pub fn write_byte(&mut self, addr: u16, value: u8)
        ensures
            final(self)@ == old(self)@.write(addr, value),
            old(self)@.wf() ==> final(self)@.wf(),
    {
        if addr <= 0x7fff {
            self.cartridge.write_byte(addr, value);
        } else if addr <= 0x9fff {
            self.ppu.write_byte(addr, value);
        } else if addr <= 0xbfff {
        } else if addr <= 0xdfff {
            self.wram[(addr - WRAM_BASE) as usize] = value;
        } else if addr <= 0xfdff {
            self.wram[(addr - ECHO_BASE) as usize] = value;
        } else if addr <= 0xfe9f {
            self.ppu.write_byte(addr, value);
        } else if addr <= 0xfeff {
        } else if addr == JOYPAD_ADDR {
            self.joypad.write_byte(value);
        } else if 0xff01 <= addr && addr <= 0xff02 {
            self.serial_ram[(addr - SERIAL_BASE) as usize] = value;
        } else if 0xff04 <= addr && addr <= 0xff07 {
            self.timer.write_byte(addr, value);
        } else if addr == IF_ADDR {
            self.irq.set_interrupt_flag(value);
        } else if (0xff10 <= addr && addr <= 0xff26) || (0xff30 <= addr && addr <= 0xff3f) {
            self.apu.write_byte(addr, value);
        } else if (0xff40 <= addr && addr <= 0xff45) || (0xff47 <= addr && addr <= 0xff4b) {
            self.ppu.write_byte(addr, value);
        } else if addr == DMA_ADDR {
            self.dma_transfer(value);
        } else if addr == crate::cartridge::BOOT_LATCH {
            self.cartridge.write_byte(addr, value);
        } else if 0xff80 <= addr && addr <= 0xfffe {
            self.hram[(addr - HRAM_BASE) as usize] = value;
        } else if addr == IE_ADDR {
            self.interrupt_enable = value;
        }
    }

    pub fn read_word(&self, addr: u16) -> (r: u16)
        ensures
            r == self@.read_word(addr),
    {
        let low = self.read_byte(addr) as u16;
        let high = self.read_byte(following(addr)) as u16;
        high * 256 + low
    }

    pub fn write_word(&mut self, addr: u16, value: u16)
        ensures
            final(self)@ == old(self)@.write_word(addr, value),
            old(self)@.wf() ==> final(self)@.wf(),
    {
        let high = (value / 256) as u8;
        let low = (value % 256) as u8;
        self.write_byte(addr, low);
        self.write_byte(following(addr), high);
    }

    /// Copies the 160 bytes that start at `value * 0x100` into the sprite
    /// table, all at once as far as the processor can tell.
    fn dma_transfer(&mut self, value: u8)
        ensures
            final(self)@ == old(self)@.dma_transfer(value),
            old(self)@.wf() ==> final(self)@.wf(),
            forall|i: int|
                0 <= i < OAM_SIZE ==> #[trigger] final(self)@.ppu.oam[i] == old(self)@.read(
                    (value * 0x100 + i) as u16,
                ),
    {
        let high_byte: u16 = (value as u16) * 0x100;
        let mut staged = [0u8; OAM_SIZE];
        let mut offset: u16 = 0;
        while offset < 0xa0
            invariant
                offset <= 0xa0,
                high_byte == value * 0x100,
                forall|i: int|
                    0 <= i < offset ==> #[trigger] staged@[i] == self@.read(
                        (value * 0x100 + i) as u16,
                    ),
            decreases 0xa0 - offset,
        {
            staged[offset as usize] = self.read_byte(high_byte + offset);
            offset += 1;
        }
        proof {
            self.ppu.lemma_sizes();
        }
        let mut offset: u16 = 0;
        while offset < 0xa0
            invariant
                offset <= 0xa0,
                self@ == (MmuView {
                    ppu: PpuView { oam: self@.ppu.oam, ..old(self)@.ppu },
                    ..old(self)@
                }),
                self@.ppu.oam.len() == OAM_SIZE,
                forall|i: int|
                    0 <= i < OAM_SIZE ==> #[trigger] self@.ppu.oam[i] == (if i < offset {
                        staged@[i]
                    } else {
                        old(self)@.ppu.oam[i]
                    }),
            decreases 0xa0 - offset,
        {
            self.ppu.write_byte(OAM_BASE + offset, staged[offset as usize]);
            offset += 1;
        }
        proof {
            assert(self@.ppu.oam =~= old(self)@.dma_transfer(value).ppu.oam);
        }
    }

    /// A copy of the picture.
    pub fn frame(&self) -> (r: [[Color; WIDTH]; HEIGHT])
        ensures
            forall|y: int, x: int|
                0 <= y < HEIGHT && 0 <= x < WIDTH ==> r@[y]@[x] == self@.ppu.screen[y][x],
    {
        self.ppu.frame()
    }

    /// Hands out the pending sound output.
    pub fn audio_buffer(&mut self) -> (buffer: Vec<u8>)
        ensures
            buffer@ == old(self)@.apu.audio_buffer,
            final(self)@ == old(self)@.drained(),
            old(self)@.wf() ==> final(self)@.wf(),
    {
        self.apu.audio_buffer()
    }

    pub fn button_pressed(&mut self, button: Button)
        ensures
            final(self)@ == old(self)@.press(button),
            old(self)@.wf() ==> final(self)@.wf(),
    {
        self.joypad.button_pressed(button, &mut self.irq);
    }

    pub fn button_released(&mut self, button: Button)
        ensures
            final(self)@ == old(self)@.release(button),
            old(self)@.wf() ==> final(self)@.wf(),
    {
        self.joypad.button_released(button);
    }
}

/// The address after `addr`, wrapping at the top of the address space.
pub fn following(addr: u16) -> (r: u16)
    ensures
        r == next_addr(addr),
{
    if addr == 0xffff {
        0
    } else {
        addr + 1
    }
}

/// After a write of `value` to the transfer register, the 160 bytes of the
/// sprite table are the 160 bytes that stood at `value * 0x100`.
pub proof fn lemma_dma_copies_page(m: MmuView, value: u8, i: int)
    requires
        m.wf(),
        0 <= i < OAM_SIZE,
    ensures
        m.write(DMA_ADDR, value).read((OAM_BASE + i) as u16) == m.read((value * 0x100 + i) as u16),
        m.write(DMA_ADDR, value).wf(),
{
}

/// A byte written to work or high memory is read back, and the mirror
/// shows what work memory holds.
pub proof fn lemma_ram_round_trip(m: MmuView, addr: u16, value: u8)
    requires
        m.wf(),
    ensures
        0xc000 <= addr <= 0xdfff || 0xff80 <= addr <= 0xfffe ==> m.write(addr, value).read(addr)
            == value,
        0xc000 <= addr <= 0xddff ==> m.write(addr, value).read((addr + 0x2000) as u16) == value,
        0xe000 <= addr <= 0xfdff ==> m.write(addr, value).read((addr - 0x2000) as u16) == value,
{
}

/// A write to work or high memory changes no other byte of them.
pub proof fn lemma_ram_write_is_local(m: MmuView, addr: u16, value: u8, other: u16)
    requires
        m.wf(),
        0xc000 <= addr <= 0xdfff || 0xff80 <= addr <= 0xfffe,
        0xc000 <= other <= 0xdfff || 0xff80 <= other <= 0xfffe,
        other != addr,
    ensures
        m.write(addr, value).read(other) == m.read(other),
{
}

} // verus!
