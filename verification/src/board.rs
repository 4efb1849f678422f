//! The board: the processor, the bus and everything behind it, driven one
//! frame at a time.
//!
//! After each instruction the components behind the bus catch up by the
//! cycles that it took, so that their state is consistent at every opcode
//! boundary.

use vstd::prelude::*;
use crate::cartridge::{rom_image, Cartridge, CartridgeView, BOOT_ROM_SIZE, GAME_ROM_SIZE};
use crate::cpu::{lemma_step_bounds, machine, Cpu, CpuError, CpuView, Machine, MAX_CYCLES};
use crate::irq::Irq;
use crate::joypad::{Button, JoyPad, JoyPadView};
use crate::mmu::{Mmu, MmuView, HRAM_SIZE, SERIAL_RAM, WRAM_SIZE};
use crate::ppu::{Color, Ppu, PpuView, HEIGHT, WIDTH};
use crate::registers::{RegisterFile, Registers};
use crate::sound::{Apu, ApuView};
use crate::timer::TimerView;

verus! {

/// Cycles of one frame: 154 lines of 456 dots.
pub const CYCLES_PER_FRAME: u32 = 70224;

/// The mathematical content of the board.
pub struct BoardView {
    pub machine: Machine,
    /// Cycles by which the last frame ran over; they count towards the
    /// next.
    pub ticks: u32,
}

/// The machine after one instruction and the catching up of the
/// components behind the bus by `cycles`.
pub open spec fn advance(m: Machine, cycles: u8) -> Machine {
    Machine { cpu: m.step().cpu, bus: m.step().bus.step(cycles) }
}

/// The machine after it has run until `left` cycles are used up, with the
/// cycles by which it ran over; or, where it met a byte that stands for no
/// instruction, the machine past that byte and the error.
pub open spec fn run(m: Machine, left: int) -> (Machine, Result<int, CpuError>)
    decreases left + MAX_CYCLES,
    via run_decreases
{
    if left <= 0 {
        (m, Ok(-left))
    } else {
        match m.step_result() {
            Ok(cycles) => run(advance(m, cycles), left - cycles),
            Err(error) => (m.step(), Err(error)),
        }
    }
}

#[via_fn]
proof fn run_decreases(m: Machine, left: int) {
    lemma_step_bounds(m);
}

/// The bus after the writes that the boot program leaves behind in the
/// sound and picture registers.
pub open spec fn after_boot_writes(bus: MmuView) -> MmuView {
    bus.write(0xff10, 0x80).write(0xff11, 0xbf).write(0xff12, 0xf3).write(0xff14, 0xbf).write(
        0xff16,
        0x3f,
    ).write(0xff19, 0xbf).write(0xff1a, 0x7f).write(0xff1b, 0xff).write(0xff1c, 0x9f).write(
        0xff1e,
        0xff,
    ).write(0xff20, 0xff).write(0xff23, 0xbf).write(0xff24, 0x77).write(0xff25, 0xf3).write(
        0xff26,
        0xf1,
    ).write(0xff40, 0x91).write(0xff47, 0xfc).write(0xff48, 0xff).write(0xff49, 0xff)
}

/// The bus of a fresh board over `cartridge`.
pub open spec fn fresh_bus(cartridge: CartridgeView) -> MmuView {
    MmuView {
        timer: TimerView::initial(),
        apu: ApuView::initial(),
        irq: 0,
        ppu: PpuView::initial(),
        joypad: JoyPadView::initial(),
        cartridge,
        wram: Seq::new(WRAM_SIZE as nat, |i: int| 0u8),
        hram: Seq::new(HRAM_SIZE as nat, |i: int| 0u8),
        serial_ram: Seq::new(SERIAL_RAM as nat, |i: int| 0u8),
        interrupt_enable: 0,
    }
}

impl BoardView {
    pub open spec fn wf(self) -> bool {
        self.machine.bus.wf() && self.ticks < MAX_CYCLES
    }

    /// The cycles that the next frame still has to run.
    pub open spec fn budget(self) -> int {
        if self.ticks >= CYCLES_PER_FRAME {
            0
        } else {
            CYCLES_PER_FRAME - self.ticks
        }
    }

    /// The board after the next frame.
    pub open spec fn next_frame(self) -> BoardView {
        let (m, result) = run(self.machine, self.budget());
        BoardView {
            machine: m,
            ticks: match result {
                Ok(over) => over as u32,
                Err(_) => 0,
            },
        }
    }

    /// The cycles that the next frame charges to the bus, or the error
    /// that stops it.
    pub open spec fn next_frame_result(self) -> Result<u32, CpuError> {
        match run(self.machine, self.budget()).1 {
            Ok(over) => Ok((self.budget() + over) as u32),
            Err(error) => Err(error),
        }
    }
}

/// The board: owner of every component.
pub struct Board {
    cpu: Cpu,
    mmu: Mmu,
    ticks: u32,
}

impl View for Board {
    type V = BoardView;

    closed spec fn view(&self) -> BoardView {
        BoardView { machine: machine(self.cpu@, self.mmu@), ticks: self.ticks }
    }
}

impl Board {
    /// Puts a board together around `cartridge`; with `boot` the processor
    /// starts at power-on, without it as the boot program leaves it.
    fn create(cartridge: Cartridge, boot: bool) -> (r: Self)
        ensures
            r@.machine.bus == fresh_bus(cartridge@),
            r@.machine.cpu == (CpuView {
                regs: if boot {
                    RegisterFile::zeroed()
                } else {
                    RegisterFile::after_boot()
                },
                ime: false,
                halted: false,
            }),
            r@.ticks == 0,
            r@.wf(),
    {
        proof {
            cartridge.lemma_wf();
        }
        let apu = Apu::new();
        let irq = Irq::new();
        let ppu = Ppu::new();
        let joypad = JoyPad::new();
        let mmu = Mmu::new(apu, irq, ppu, joypad, cartridge);
        let cpu = if boot { Cpu::new() } else { Cpu::no_boot() };
        Self { cpu, mmu, ticks: 0 }
    }

    /// A board that starts in the boot program.  Either image is cut at
    /// its size and padded with zeros up to it.
    pub fn new(boot: &[u8], game: &[u8]) -> (r: Self)
        ensures
            r@.machine.bus == fresh_bus(
                CartridgeView {
                    boot_rom: rom_image(boot@, BOOT_ROM_SIZE as nat),
                    game_data: rom_image(game@, GAME_ROM_SIZE as nat),
                    use_boot_rom: true,
                },
            ),
            r@.machine.cpu == (CpuView {
                regs: RegisterFile::zeroed(),
                ime: false,
                halted: false,
            }),
            r@.ticks == 0,
            r@.wf(),
    {
        let cartridge = Cartridge::new(boot, game);
        Self::create(cartridge, true)
    }

    /// A board without a boot program: registers and ports stand as the
    /// boot program would have left them, and the program counter at the
    /// entry of the game.
    pub fn no_boot(game: &[u8]) -> (r: Self)
        ensures
            r@.machine.bus == after_boot_writes(
                fresh_bus(
                    CartridgeView {
                        boot_rom: rom_image(Seq::<u8>::empty(), BOOT_ROM_SIZE as nat),
                        game_data: rom_image(game@, GAME_ROM_SIZE as nat),
                        use_boot_rom: false,
                    },
                ),
            ),
            r@.machine.cpu == (CpuView {
                regs: RegisterFile::after_boot(),
                ime: false,
                halted: false,
            }),
            r@.ticks == 0,
            r@.wf(),
    {
        let cartridge = Cartridge::no_boot(game);
        let mut board = Self::create(cartridge, false);
        board.mmu.write_byte(0xff10, 0x80);
        board.mmu.write_byte(0xff11, 0xbf);
        board.mmu.write_byte(0xff12, 0xf3);
        board.mmu.write_byte(0xff14, 0xbf);
        board.mmu.write_byte(0xff16, 0x3f);
        board.mmu.write_byte(0xff19, 0xbf);
        board.mmu.write_byte(0xff1a, 0x7f);
        board.mmu.write_byte(0xff1b, 0xff);
        board.mmu.write_byte(0xff1c, 0x9f);
        board.mmu.write_byte(0xff1e, 0xff);
        board.mmu.write_byte(0xff20, 0xff);
        board.mmu.write_byte(0xff23, 0xbf);
        board.mmu.write_byte(0xff24, 0x77);
        board.mmu.write_byte(0xff25, 0xf3);
        board.mmu.write_byte(0xff26, 0xf1);
        board.mmu.write_byte(0xff40, 0x91);
        board.mmu.write_byte(0xff47, 0xfc);
        board.mmu.write_byte(0xff48, 0xff);
        board.mmu.write_byte(0xff49, 0xff);
        board
    }

    /// Runs the machine until a frame's worth of cycles has passed, the
    /// cycles by which the last frame ran over counted in, and returns the
    /// cycles charged to the bus.  A byte that stands for no instruction
    /// stops the frame: the program counter stands past it, and the byte
    /// and its address are returned.
    pub fn run_to_next_frame(&mut self) -> (r: Result<u32, CpuError>)
        ensures
            final(self)@ == old(self)@.next_frame(),
            r == old(self)@.next_frame_result(),
            old(self)@.wf() ==> final(self)@.wf(),
            old(self)@.wf() ==> match r {
                Ok(charged) => {
                    &&& charged == CYCLES_PER_FRAME - old(self)@.ticks + final(self)@.ticks
                    &&& charged > CYCLES_PER_FRAME - MAX_CYCLES
                    &&& charged < CYCLES_PER_FRAME + MAX_CYCLES
                },
                Err(_) => true,
            },
    {
        let budget: u32 = if self.ticks >= CYCLES_PER_FRAME {
            0
        } else {
            CYCLES_PER_FRAME - self.ticks
        };
        let mut left: i64 = budget as i64;
        while left > 0
            invariant
                -(MAX_CYCLES as int) < left <= budget,
                budget <= CYCLES_PER_FRAME,
                budget == old(self)@.budget(),
                run(machine(self.cpu@, self.mmu@), left as int) == run(
                    old(self)@.machine,
                    budget as int,
                ),
                old(self)@.wf() ==> self.mmu@.wf(),
            decreases left + MAX_CYCLES,
        {
            match self.cpu.step(&mut self.mmu) {
                Ok(steps) => {
                    self.mmu.step(steps);
                    left = left - steps as i64;
                },
                Err(error) => {
                    self.ticks = 0;
                    return Err(error);
                },
            }
        }
        let over: u32 = (-left) as u32;
        self.ticks = over;
        Ok(budget + over)
    }

    /// The byte that the processor would read at `addr`.
    pub fn read_byte(&self, addr: u16) -> (r: u8)
        ensures
            r == self@.machine.bus.read(addr),
    {
        self.mmu.read_byte(addr)
    }

    /// Writes `value` at `addr` as the processor would.
    pub fn write_byte(&mut self, addr: u16, value: u8)
        ensures
            final(self)@ == (BoardView {
                machine: Machine {
                    bus: old(self)@.machine.bus.write(addr, value),
                    ..old(self)@.machine
                },
                ..old(self)@
            }),
            old(self)@.wf() ==> final(self)@.wf(),
    {
        self.mmu.write_byte(addr, value);
    }

    /// A copy of the processor's registers.
    pub fn registers(&self) -> (r: Registers)
        ensures
            r@ == self@.machine.cpu.regs,
    {
        self.cpu.registers()
    }

    /// Whether the processor waits for an interrupt.
    pub fn halted(&self) -> (r: bool)
        ensures
            r == self@.machine.cpu.halted,
    {
        self.cpu.halted()
    }

    /// A copy of the picture: 144 rows of 160 pixels.
    pub fn frame(&self) -> (r: [[Color; WIDTH]; HEIGHT])
        ensures
            forall|y: int, x: int|
                0 <= y < HEIGHT && 0 <= x < WIDTH ==> r@[y]@[x]
                    == self@.machine.bus.ppu.screen[y][x],
    {
        self.mmu.frame()
    }

    /// Hands out the pending sound output: stereo frames, left and right
    /// interleaved, each entry a level in fifteenths of full volume.
    pub fn audio(&mut self) -> (r: Vec<u8>)
        ensures
            r@ == old(self)@.machine.bus.apu.audio_buffer,
            final(self)@ == (BoardView {
                machine: Machine { bus: old(self)@.machine.bus.drained(), ..old(self)@.machine },
                ..old(self)@
            }),
            old(self)@.wf() ==> final(self)@.wf(),
    {
        self.mmu.audio_buffer()
    }

    pub fn button_pressed(&mut self, button: Button)
        ensures
            final(self)@ == (BoardView {
                machine: Machine {
                    bus: old(self)@.machine.bus.press(button),
                    ..old(self)@.machine
                },
                ..old(self)@
            }),
            old(self)@.wf() ==> final(self)@.wf(),
    {
        self.mmu.button_pressed(button);
    }

    pub fn button_released(&mut self, button: Button)
        ensures
            final(self)@ == (BoardView {
                machine: Machine {
                    bus: old(self)@.machine.bus.release(button),
                    ..old(self)@.machine
                },
                ..old(self)@
            }),
            old(self)@.wf() ==> final(self)@.wf(),
    {
        self.mmu.button_released(button);
    }
}

/// A frame that is not stopped charges more than a frame less the longest
/// instruction to the bus, and runs over by less than the longest
/// instruction.
pub proof fn lemma_frame_charge(m: Machine, left: int)
    requires
        left > -(MAX_CYCLES as int),
    ensures
        match run(m, left).1 {
            Ok(over) => 0 <= over < MAX_CYCLES && left + over > left - MAX_CYCLES && (left >= 0
                ==> left + over >= left),
            Err(_) => true,
        },
    decreases left + MAX_CYCLES,
{
    if left > 0 {
        lemma_step_bounds(m);
        match m.step_result() {
            Ok(cycles) => {
                lemma_frame_charge(advance(m, cycles), left - cycles);
            },
            Err(_) => {},
        }
    }
}

/// Once the boot writes are made, each of the ports that they touch
/// reads back its value.
pub proof fn lemma_post_boot_ports(bus: MmuView)
    requires
        bus.wf(),
    ensures
        after_boot_writes(bus).read(0xff10) == 0x80,
        after_boot_writes(bus).read(0xff11) == 0xbf,
        after_boot_writes(bus).read(0xff12) == 0xf3,
        after_boot_writes(bus).read(0xff14) == 0xbf,
        after_boot_writes(bus).read(0xff16) == 0x3f,
        after_boot_writes(bus).read(0xff19) == 0xbf,
        after_boot_writes(bus).read(0xff1a) == 0x7f,
        after_boot_writes(bus).read(0xff1b) == 0xff,
        after_boot_writes(bus).read(0xff1c) == 0x9f,
        after_boot_writes(bus).read(0xff1e) == 0xff,
        after_boot_writes(bus).read(0xff20) == 0xff,
        after_boot_writes(bus).read(0xff23) == 0xbf,
        after_boot_writes(bus).read(0xff24) == 0x77,
        after_boot_writes(bus).read(0xff25) == 0xf3,
        after_boot_writes(bus).read(0xff26) == 0xf1,
        after_boot_writes(bus).read(0xff40) == 0x91,
        after_boot_writes(bus).read(0xff47) == 0xfc,
        after_boot_writes(bus).read(0xff48) == 0xff,
        after_boot_writes(bus).read(0xff49) == 0xff,
{
}

} // verus!
