//! The wave channel: its five registers NR30 to NR34 and the wave pattern
//! memory.

use vstd::prelude::*;
use crate::sound::common::{bank_read, bank_write};

verus! {

/// Address of the channel's first register.
pub const BASE: u16 = 0xff1a;

/// Number of registers of the channel.
pub const REGISTERS: usize = 5;

/// Address of the first byte of the wave pattern.
pub const PATTERN_BASE: u16 = 0xff30;

/// Bytes of wave pattern that the bus reaches.
pub const PATTERN_WINDOW: u16 = 0x10;

pub const WAVE_PATTERN_SIZE: usize = 0x40;

/// The mathematical content of the wave channel.
pub struct WaveChannelView {
    /// NR30 to NR34 in address order.
    pub registers: Seq<u8>,
    pub pattern: Seq<u8>,
}

impl WaveChannelView {
    pub open spec fn wf(self) -> bool {
        &&& self.registers.len() == REGISTERS
        &&& self.pattern.len() == WAVE_PATTERN_SIZE
    }

    pub open spec fn initial() -> WaveChannelView {
        WaveChannelView {
            registers: Seq::new(REGISTERS as nat, |i: int| 0u8),
            pattern: Seq::new(WAVE_PATTERN_SIZE as nat, |i: int| 0u8),
        }
    }

    /// The byte at `addr`: a register, a byte of the pattern, or `0xFF`.
    pub open spec fn read(self, addr: u16) -> u8 {
        if PATTERN_BASE <= addr < PATTERN_BASE + PATTERN_WINDOW {
            self.pattern[addr - PATTERN_BASE]
        } else {
            bank_read(self.registers, BASE, addr)
        }
    }

    pub open spec fn write(self, addr: u16, value: u8) -> WaveChannelView {
        if PATTERN_BASE <= addr < PATTERN_BASE + PATTERN_WINDOW {
            WaveChannelView { pattern: self.pattern.update(addr - PATTERN_BASE, value), ..self }
        } else {
            WaveChannelView { registers: bank_write(self.registers, BASE, addr, value), ..self }
        }
    }
}

pub struct WaveChannel {
    on_off_register: u8,
    length_register: u8,
    output_level_register: u8,
    frequency_low_register: u8,
    frequency_high_register: u8,
    wave_pattern: [u8; WAVE_PATTERN_SIZE],
}

impl View for WaveChannel {
    type V = WaveChannelView;

    closed spec fn view(&self) -> WaveChannelView {
        WaveChannelView {
            registers: seq![
                self.on_off_register,
                self.length_register,
                self.output_level_register,
                self.frequency_low_register,
                self.frequency_high_register,
            ],
            pattern: self.wave_pattern@,
        }
    }
}

impl WaveChannel {
    pub fn new() -> (r: Self)
        ensures
            r@ == WaveChannelView::initial(),
            r@.wf(),
    {
        let r = Self {
            on_off_register: 0,
            length_register: 0,
            output_level_register: 0,
            frequency_low_register: 0,
            frequency_high_register: 0,
            wave_pattern: [0; WAVE_PATTERN_SIZE],
        };
        assert(r@.registers =~= WaveChannelView::initial().registers);
        assert(r@.pattern =~= WaveChannelView::initial().pattern);
        r
    }

    pub fn read_byte(&self, addr: u16) -> (r: u8)
        ensures
            r == self@.read(addr),
            self@.wf(),
    {
        if addr == BASE {
            self.on_off_register
        } else if addr == BASE + 1 {
            self.length_register
        } else if addr == BASE + 2 {
            self.output_level_register
        } else if addr == BASE + 3 {
            self.frequency_low_register
        } else if addr == BASE + 4 {
            self.frequency_high_register
        } else if PATTERN_BASE <= addr && addr < PATTERN_BASE + PATTERN_WINDOW {
            self.wave_pattern[(addr - PATTERN_BASE) as usize]
        } else {
            0xff
        }
    }

    pub fn write_byte(&mut self, addr: u16, value: u8)
        ensures
            final(self)@ == old(self)@.write(addr, value),
            final(self)@.wf(),
    {
        if addr == BASE {
            self.on_off_register = value;
        } else if addr == BASE + 1 {
            self.length_register = value;
        } else if addr == BASE + 2 {
            self.output_level_register = value;
        } else if addr == BASE + 3 {
            self.frequency_low_register = value;
        } else if addr == BASE + 4 {
            self.frequency_high_register = value;
        } else if PATTERN_BASE <= addr && addr < PATTERN_BASE + PATTERN_WINDOW {
            self.wave_pattern[(addr - PATTERN_BASE) as usize] = value;
        }
        assert(self@.registers =~= old(self)@.write(addr, value).registers);
        assert(self@.pattern =~= old(self)@.write(addr, value).pattern);
    }
}

} // verus!
