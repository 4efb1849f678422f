//! The second pulse channel: its four registers NR21 to NR24.

use vstd::prelude::*;
use crate::sound::common::{bank_read, bank_write};

verus! {

/// Address of the channel's first register.
pub const BASE: u16 = 0xff16;

/// Number of registers of the channel.
pub const REGISTERS: usize = 4;

#[derive(Clone, Copy, Debug)]
pub struct PulseChannel {
    length_pattern_register: u8,
    volume_envelope_register: u8,
    frequency_low_register: u8,
    frequency_high_register: u8,
}

impl View for PulseChannel {
    type V = Seq<u8>;

    /// The channel's registers in address order.
    closed spec fn view(&self) -> Seq<u8> {
        seq![self.length_pattern_register, self.volume_envelope_register, self.frequency_low_register, self.frequency_high_register]
    }
}

impl PulseChannel {
    pub fn new() -> (r: Self)
        ensures
            r@ == Seq::new(REGISTERS as nat, |i: int| 0u8),
    {
        let r = Self {
            length_pattern_register: 0,
            volume_envelope_register: 0,
            frequency_low_register: 0,
            frequency_high_register: 0,
        };
        assert(r@ =~= Seq::new(REGISTERS as nat, |i: int| 0u8));
        r
    }

    /// The register at `addr`; `0xFF` outside the channel.
    pub fn read_byte(&self, addr: u16) -> (r: u8)
        ensures
            self@.len() == REGISTERS,
            r == bank_read(self@, BASE, addr),
    {
        if addr == BASE + 0 {
            self.length_pattern_register
        } else if addr == BASE + 1 {
            self.volume_envelope_register
        } else if addr == BASE + 2 {
            self.frequency_low_register
        } else if addr == BASE + 3 {
            self.frequency_high_register
        } else {
            0xff
        }
    }

    /// Stores `value` in the register at `addr`; nothing happens outside
    /// the channel.
    pub fn write_byte(&mut self, addr: u16, value: u8)
        ensures
            final(self)@.len() == REGISTERS,
            final(self)@ == bank_write(old(self)@, BASE, addr, value),
    {
        if addr == BASE + 0 {
            self.length_pattern_register = value;
        } else if addr == BASE + 1 {
            self.volume_envelope_register = value;
        } else if addr == BASE + 2 {
            self.frequency_low_register = value;
        } else if addr == BASE + 3 {
            self.frequency_high_register = value;
        }
        assert(self@ =~= bank_write(old(self)@, BASE, addr, value));
    }
}

} // verus!
