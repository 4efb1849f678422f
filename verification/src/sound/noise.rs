//! The noise channel: its four registers NR41 to NR44.

use vstd::prelude::*;
use crate::sound::common::{bank_read, bank_write};

verus! {

/// Address of the channel's first register.
pub const BASE: u16 = 0xff20;

/// Number of registers of the channel.
pub const REGISTERS: usize = 4;

#[derive(Clone, Copy, Debug)]
pub struct NoiseChannel {
    length_register: u8,
    volume_envelope_register: u8,
    polynomial_counter_register: u8,
    consecutive_register: u8,
}

impl View for NoiseChannel {
    type V = Seq<u8>;

    /// The channel's registers in address order.
    closed spec fn view(&self) -> Seq<u8> {
        seq![self.length_register, self.volume_envelope_register, self.polynomial_counter_register, self.consecutive_register]
    }
}

impl NoiseChannel {
    pub fn new() -> (r: Self)
        ensures
            r@ == Seq::new(REGISTERS as nat, |i: int| 0u8),
    {
        let r = Self {
            length_register: 0,
            volume_envelope_register: 0,
            polynomial_counter_register: 0,
            consecutive_register: 0,
        };
        assert(r@ =~= Seq::new(REGISTERS as nat, |i: int| 0u8));
        r
    }

    /// The register at `addr`; `0xFF` outside the channel.
    pub fn read_byte(&self, addr: u16) -> (r: u8)
        ensures
            self@.len() == REGISTERS,
            r == bank_read(self@, BASE, addr),
    {
        if addr == BASE + 0 {
            self.length_register
        } else if addr == BASE + 1 {
            self.volume_envelope_register
        } else if addr == BASE + 2 {
            self.polynomial_counter_register
        } else if addr == BASE + 3 {
            self.consecutive_register
        } else {
            0xff
        }
    }

    /// Stores `value` in the register at `addr`; nothing happens outside
    /// the channel.
    pub fn write_byte(&mut self, addr: u16, value: u8)
        ensures
            final(self)@.len() == REGISTERS,
            final(self)@ == bank_write(old(self)@, BASE, addr, value),
    {
        if addr == BASE + 0 {
            self.length_register = value;
        } else if addr == BASE + 1 {
            self.volume_envelope_register = value;
        } else if addr == BASE + 2 {
            self.polynomial_counter_register = value;
        } else if addr == BASE + 3 {
            self.consecutive_register = value;
        }
        assert(self@ =~= bank_write(old(self)@, BASE, addr, value));
    }
}

} // verus!
