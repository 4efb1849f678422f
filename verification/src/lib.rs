//! A model of the first Game Boy (DMG): the SM83 interpreter, its bus, the
//! picture unit, the timer, the joypad and the sound unit, each with a
//! contract over a mathematical view of its state.

pub mod alu;
pub mod bits;
pub mod board;
pub mod cartridge;
pub mod cpu;
pub mod instruction;
pub mod irq;
pub mod joypad;
pub mod mmu;
pub mod ppu;
pub mod registers;
pub mod sound;
pub mod stack;
pub mod timer;

pub use board::Board;
pub use cpu::CpuError;
pub use joypad::Button;
pub use ppu::{Color, HEIGHT, WIDTH};
pub use sound::SAMPLE_RATE;
