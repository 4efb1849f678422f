//! The joypad: eight buttons in two rows of four, read through one
//! register that selects the row.  A pressed button reads as a zero bit.

use vstd::prelude::*;
use crate::irq::{Irq, JOYPAD_BIT};

verus! {

#[derive(Copy, Clone, PartialEq, Eq, Structural, Debug)]
pub enum Button {
    Up,
    Down,
    Left,
    Right,
    Start,
    Select,
    A,
    B,
}

/// Selection bit that, when clear, puts the action row on the register.
pub const SELECT_ACTIONS: u8 = 0x20;

/// Selection bit that, when clear, puts the direction row on the register.
pub const SELECT_DIRECTIONS: u8 = 0x10;

impl Button {
    /// Whether the button sits in the direction row.
    pub open spec fn spec_is_direction(self) -> bool {
        self == Button::Right || self == Button::Left || self == Button::Up || self
            == Button::Down
    }

    /// The button's bit within its row.
    pub open spec fn spec_mask(self) -> u8 {
        match self {
            Button::Right | Button::A => 0x01,
            Button::Left | Button::B => 0x02,
            Button::Up | Button::Select => 0x04,
            Button::Down | Button::Start => 0x08,
        }
    }

    pub fn is_direction(self) -> (r: bool)
        ensures
            r == self.spec_is_direction(),
    {
        match self {
            Button::Right | Button::Left | Button::Up | Button::Down => true,
            _ => false,
        }
    }

    pub fn mask(self) -> (r: u8)
        ensures
            r == self.spec_mask(),
            r == 1 || r == 2 || r == 4 || r == 8,
    {
        match self {
            Button::Right | Button::A => 0x01,
            Button::Left | Button::B => 0x02,
            Button::Up | Button::Select => 0x04,
            Button::Down | Button::Start => 0x08,
        }
    }
}

/// The mathematical content of the joypad.
pub struct JoyPadView {
    /// Direction row; a clear bit is a pressed button.
    pub directions: u8,
    /// Action row; a clear bit is a pressed button.
    pub actions: u8,
    /// The byte last written to the register.
    pub selection: u8,
}

impl JoyPadView {
    /// Both rows are nibbles.
    pub open spec fn wf(self) -> bool {
        self.directions < 16 && self.actions < 16
    }

    pub open spec fn initial() -> JoyPadView {
        JoyPadView { directions: 0xf, actions: 0xf, selection: 0 }
    }

    /// The rows after `button` went down: its bit is cleared.
    pub open spec fn press(self, button: Button) -> JoyPadView {
        if button.spec_is_direction() {
            JoyPadView { directions: self.directions & !button.spec_mask(), ..self }
        } else {
            JoyPadView { actions: self.actions & !button.spec_mask(), ..self }
        }
    }

    /// The rows after `button` came up: its bit is set.
    pub open spec fn release(self, button: Button) -> JoyPadView {
        if button.spec_is_direction() {
            JoyPadView { directions: self.directions | button.spec_mask(), ..self }
        } else {
            JoyPadView { actions: self.actions | button.spec_mask(), ..self }
        }
    }

    /// Whether `button` is held down.
    pub open spec fn is_pressed(self, button: Button) -> bool {
        if button.spec_is_direction() {
            self.directions & button.spec_mask() == 0
        } else {
            self.actions & button.spec_mask() == 0
        }
    }

    /// The register as read: the low nibble of the selected row, the action
    /// row first, and `0xF` when no row is selected.
    pub open spec fn read(self) -> u8 {
        if self.selection & SELECT_ACTIONS == 0 {
            self.actions & 0x0f
        } else if self.selection & SELECT_DIRECTIONS == 0 {
            self.directions & 0x0f
        } else {
            0x0f
        }
    }

    pub open spec fn write(self, value: u8) -> JoyPadView {
        JoyPadView { selection: value, ..self }
    }
}

#[derive(Clone, Copy, Debug)]
pub struct JoyPad {
    direction_buttons: u8,
    action_buttons: u8,
    selection_flag: u8,
}

impl View for JoyPad {
    type V = JoyPadView;

    closed spec fn view(&self) -> JoyPadView {
        JoyPadView {
            directions: self.direction_buttons,
            actions: self.action_buttons,
            selection: self.selection_flag,
        }
    }
}

impl JoyPad {
    /// No button pressed, nothing selected yet.
    pub fn new() -> (r: Self)
        ensures
            r@ == JoyPadView::initial(),
            r@.wf(),
    {
        Self { direction_buttons: 0xf, action_buttons: 0xf, selection_flag: 0 }
    }

    /// Records that `button` went down and requests the joypad interrupt.
    pub fn button_pressed(&mut self, button: Button, irq: &mut Irq)
        ensures
            final(self)@ == old(self)@.press(button),
            final(self)@.is_pressed(button),
            final(irq)@ == old(irq)@ | JOYPAD_BIT,
            old(self)@.wf() ==> final(self)@.wf(),
    {
        let mask = button.mask();
        proof {
            lemma_row_bits(self.direction_buttons, mask);
            lemma_row_bits(self.action_buttons, mask);
        }
        if button.is_direction() {
            self.direction_buttons = self.direction_buttons & !mask;
        } else {
            self.action_buttons = self.action_buttons & !mask;
        }
        irq.joypad_interrupt();
    }

    /// Records that `button` came up.
    pub fn button_released(&mut self, button: Button)
        ensures
            final(self)@ == old(self)@.release(button),
            !final(self)@.is_pressed(button),
            old(self)@.wf() ==> final(self)@.wf(),
    {
        let mask = button.mask();
        proof {
            lemma_row_bits(self.direction_buttons, mask);
            lemma_row_bits(self.action_buttons, mask);
        }
        if button.is_direction() {
            self.direction_buttons = self.direction_buttons | mask;
        } else {
            self.action_buttons = self.action_buttons | mask;
        }
    }

    pub fn write_byte(&mut self, value: u8)
        ensures
            final(self)@ == old(self)@.write(value),
    {
        self.selection_flag = value;
    }

    pub fn read_byte(&self) -> (r: u8)
        ensures
            r == self@.read(),
            r < 16,
    {
        proof {
            lemma_nibble_mask(self.action_buttons);
            lemma_nibble_mask(self.direction_buttons);
        }
        if (self.selection_flag & SELECT_ACTIONS) == 0 {
            self.action_buttons & 0x0f
        } else if (self.selection_flag & SELECT_DIRECTIONS) == 0 {
            self.direction_buttons & 0x0f
        } else {
            0x0f
        }
    }
}

/// Clearing a button's bit leaves the bit clear and the row no larger;
/// setting it leaves the bit set and a nibble a nibble.
pub proof fn lemma_row_bits(row: u8, mask: u8)
    requires
        mask == 1 || mask == 2 || mask == 4 || mask == 8,
    ensures
        (row & !mask) & mask == 0,
        (row & !mask) <= row,
        (row | mask) & mask != 0,
        row < 16 ==> (row | mask) < 16,
{
    assert((row & !mask) & mask == 0) by (bit_vector);
    assert((row & !mask) <= row) by (bit_vector);
    assert((mask == 1 || mask == 2 || mask == 4 || mask == 8) ==> (row | mask) & mask != 0)
        by (bit_vector);
    assert((mask == 1 || mask == 2 || mask == 4 || mask == 8) && row < 16 ==> (row | mask) < 16)
        by (bit_vector);
}

/// The low nibble of a byte is below 16.
pub proof fn lemma_nibble_mask(row: u8)
    ensures
        row & 0x0f < 16,
        row < 16 ==> row & 0x0f == row,
{
    assert(row & 0x0f < 16) by (bit_vector);
    assert(row < 16 ==> row & 0x0f == row) by (bit_vector);
}

/// A button that is released after it was pressed reads as released, and
/// the other row is untouched by either event.
pub proof fn lemma_press_then_release(pad: JoyPadView, button: Button)
    ensures
        pad.press(button).is_pressed(button),
        !pad.press(button).release(button).is_pressed(button),
        button.spec_is_direction() ==> pad.press(button).actions == pad.actions,
        !button.spec_is_direction() ==> pad.press(button).directions == pad.directions,
{
    lemma_row_bits(pad.directions, button.spec_mask());
    lemma_row_bits(pad.actions, button.spec_mask());
    lemma_row_bits(pad.press(button).directions, button.spec_mask());
    lemma_row_bits(pad.press(button).actions, button.spec_mask());
}

} // verus!
