//! The interrupt controller: one byte of pending requests.
//!
//! Peripherals set bits; the processor clears a bit when it services the
//! request.

use vstd::prelude::*;

verus! {

/// Bit of the vertical-blank request.
pub const VBLANK_BIT: u8 = 0x01;

/// Bit of the display-status request.
pub const LCD_STAT_BIT: u8 = 0x02;

/// Bit of the timer request.
pub const TIMER_BIT: u8 = 0x04;

/// Bit of the serial request.
pub const SERIAL_BIT: u8 = 0x08;

/// Bit of the joypad request.
pub const JOYPAD_BIT: u8 = 0x10;

/// The pending byte with the bits of `mask` added when `fire` holds.
pub open spec fn raised(pending: u8, fire: bool, mask: u8) -> u8 {
    if fire {
        pending | mask
    } else {
        pending
    }
}

#[derive(Clone, Copy, Debug)]
pub struct Irq {
    interrupt_flag: u8,
}

impl View for Irq {
    type V = u8;

    /// The pending-request byte.
    closed spec fn view(&self) -> u8 {
        self.interrupt_flag
    }
}

impl Irq {
    pub fn new() -> (r: Self)
        ensures
            r@ == 0,
    {
        Self { interrupt_flag: 0 }
    }

    pub fn interrupt_flag(&self) -> (r: u8)
        ensures
            r == self@,
    {
        self.interrupt_flag
    }

    pub fn set_interrupt_flag(&mut self, interrupt_flag: u8)
        ensures
            final(self)@ == interrupt_flag,
    {
        self.interrupt_flag = interrupt_flag;
    }

    pub fn vblank_interrupt(&mut self)
        ensures
            final(self)@ == old(self)@ | VBLANK_BIT,
    {
        self.interrupt_flag |= VBLANK_BIT;
    }

    pub fn lcd_stat_interrupt(&mut self)
        ensures
            final(self)@ == old(self)@ | LCD_STAT_BIT,
    {
        self.interrupt_flag |= LCD_STAT_BIT;
    }

    pub fn timer_interrupt(&mut self)
        ensures
            final(self)@ == old(self)@ | TIMER_BIT,
    {
        self.interrupt_flag |= TIMER_BIT;
    }

    pub fn serial_interrupt(&mut self)
        ensures
            final(self)@ == old(self)@ | SERIAL_BIT,
    {
        self.interrupt_flag |= SERIAL_BIT;
    }

    pub fn joypad_interrupt(&mut self)
        ensures
            final(self)@ == old(self)@ | JOYPAD_BIT,
    {
        self.interrupt_flag |= JOYPAD_BIT;
    }
}

/// A request sets its own bit and leaves every bit that was set as it was.
pub proof fn lemma_request_keeps_pending(pending: u8, mask: u8)
    ensures
        (pending | mask) & mask == mask,
        (pending | mask) & pending == pending,
{
    assert((pending | mask) & mask == mask) by (bit_vector);
    assert((pending | mask) & pending == pending) by (bit_vector);
}

} // verus!
