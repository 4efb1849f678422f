//! The first pulse channel, with frequency sweep, length counter and
//! volume envelope, driven by the frame sequencer.

use vstd::prelude::*;
use crate::sound::common::FRAME_TICKS;

verus! {

pub const NR10: u16 = 0xff10;

pub const NR11: u16 = 0xff11;

pub const NR12: u16 = 0xff12;

pub const NR13: u16 = 0xff13;

pub const NR14: u16 = 0xff14;

/// The highest volume of the four-bit envelope.
pub const MAX_VOLUME: u8 = 15;

/// Frequencies are eleven bits wide.
pub const FREQUENCY_LIMIT: u16 = 2048;

/// The first step of the eight-step wave at which a duty pattern is high.
pub open spec fn spec_high_from(duty: u8) -> u8 {
    if duty == 0 {
        1
    } else if duty == 1 {
        2
    } else if duty == 2 {
        4
    } else {
        6
    }
}

/// The mathematical content of the channel.
pub struct PulseSweepView {
    pub nr10: u8,
    pub nr11: u8,
    pub nr12: u8,
    pub nr13: u8,
    pub nr14: u8,
    pub enabled: bool,
    /// Cycles until the duty pointer moves on.
    pub duty_advance_countdown: u16,
    /// Position in the eight steps of the frame sequencer.
    pub frame_step: u8,
    pub length_counter: u8,
    pub volume: u8,
    /// Position in the eight steps of the wave.
    pub duty_index: u8,
    pub sweep_counter: u8,
    pub volume_envelope_active: bool,
    pub volume_envelope_sweep_counter: u8,
    /// Cycles counted towards the next step of the frame sequencer.
    pub frame_counter: u16,
}

impl PulseSweepView {
    /// Every counter is within its period and the volume within four bits.
    pub open spec fn wf(self) -> bool {
        &&& self.frame_counter < FRAME_TICKS
        &&& self.frame_step < 8
        &&& self.duty_index < 8
        &&& self.volume <= MAX_VOLUME
        &&& self.length_counter < 32
        &&& self.duty_advance_countdown <= 4 * FREQUENCY_LIMIT
    }

    pub open spec fn initial() -> PulseSweepView {
        PulseSweepView {
            nr10: 0,
            nr11: 0,
            nr12: 0,
            nr13: 0,
            nr14: 0,
            enabled: false,
            duty_advance_countdown: 0,
            frame_step: 0,
            length_counter: 0,
            volume: 0,
            duty_index: 0,
            sweep_counter: 0,
            volume_envelope_active: true,
            volume_envelope_sweep_counter: 0,
            frame_counter: 0,
        }
    }

    /// The eleven-bit frequency: three bits of NR14 above NR13.
    pub open spec fn frequency(self) -> u16 {
        ((self.nr14 % 8) * 256 + self.nr13) as u16
    }

    /// The channel with its frequency replaced; the other bits of NR14 stay.
    pub open spec fn with_frequency(self, freq: u16) -> PulseSweepView {
        PulseSweepView {
            nr13: (freq % 256) as u8,
            nr14: ((self.nr14 / 8) * 8 + (freq / 256) % 8) as u8,
            ..self
        }
    }

    /// Bit 6 of NR14: the length counter may silence the channel.
    pub open spec fn length_enabled(self) -> bool {
        (self.nr14 / 64) % 2 == 1
    }

    /// Bits 4 to 6 of NR10, in place: clicks per frequency update.
    pub open spec fn sweep_time(self) -> u8 {
        self.nr10 & 0x70
    }

    /// Bit 3 of NR10 clear: the sweep raises the frequency.
    pub open spec fn sweep_rises(self) -> bool {
        (self.nr10 / 8) % 2 == 0
    }

    pub open spec fn sweep_shifts(self) -> u8 {
        self.nr10 % 8
    }

    /// Bit 3 of NR12 set: the envelope raises the volume.
    pub open spec fn envelope_rises(self) -> bool {
        (self.nr12 / 8) % 2 == 1
    }

    /// Clicks per volume update; zero stops the envelope.
    pub open spec fn envelope_period(self) -> u8 {
        self.nr12 % 8
    }

    /// Cycles per step of the wave: `4 * (2048 - frequency)`.
    pub open spec fn duty_period(self) -> u16 {
        (4 * (FREQUENCY_LIMIT - self.frequency())) as u16
    }

    /// Whether the wave is high at the current duty pointer.
    pub open spec fn duty_high(self) -> bool {
        self.duty_index >= spec_high_from(self.nr11 / 64)
    }

    /// The output in fifteenths: the volume while the channel is enabled
    /// and its wave is high, else silence.
    pub open spec fn level(self) -> u8 {
        if self.enabled && self.duty_high() {
            self.volume
        } else {
            0
        }
    }

    /// A click of the length counter: it counts down while enabled and
    /// silences the channel on reaching zero.
    pub open spec fn length_click(self) -> PulseSweepView {
        if self.length_counter > 0 && self.length_enabled() {
            PulseSweepView {
                length_counter: (self.length_counter - 1) as u8,
                enabled: self.enabled && self.length_counter != 1,
                ..self
            }
        } else {
            self
        }
    }

    /// A click of the volume envelope: every `envelope_period` clicks the
    /// volume moves by one; at either end of its range the envelope stops.
    pub open spec fn volume_envelope_click(self) -> PulseSweepView {
        if self.envelope_period() == 0 || !self.volume_envelope_active {
            self
        } else if self.volume_envelope_sweep_counter + 1 < self.envelope_period() {
            PulseSweepView {
                volume_envelope_sweep_counter: (self.volume_envelope_sweep_counter + 1) as u8,
                ..self
            }
        } else if self.envelope_rises() && self.volume < MAX_VOLUME {
            PulseSweepView {
                volume_envelope_sweep_counter: 0,
                volume: (self.volume + 1) as u8,
                ..self
            }
        } else if !self.envelope_rises() && self.volume > 0 {
            PulseSweepView {
                volume_envelope_sweep_counter: 0,
                volume: (self.volume - 1) as u8,
                ..self
            }
        } else {
            PulseSweepView {
                volume_envelope_sweep_counter: 0,
                volume_envelope_active: false,
                ..self
            }
        }
    }

    /// The frequency that a sweep update computes: `f + (f >> shift)` or
    /// `f - (f >> shift)`.
    pub open spec fn swept_frequency(self) -> int {
        let freq = self.frequency();
        let delta = freq >> (self.sweep_shifts() as u16);
        if self.sweep_rises() {
            freq + delta
        } else {
            freq - delta
        }
    }

    /// A click of the sweep: every `sweep_time` clicks the frequency is
    /// recomputed; one of 2048 or more silences the channel instead.
    pub open spec fn sweep_click(self) -> PulseSweepView {
        if self.sweep_time() == 0 {
            self
        } else if self.sweep_counter + 1 < self.sweep_time() {
            PulseSweepView { sweep_counter: (self.sweep_counter + 1) as u8, ..self }
        } else if self.swept_frequency() < FREQUENCY_LIMIT {
            PulseSweepView { sweep_counter: 0, ..self }.with_frequency(
                self.swept_frequency() as u16,
            )
        } else {
            PulseSweepView { sweep_counter: 0, enabled: false, ..self }
        }
    }

    /// What one step of the frame sequencer does at position `frame_step`:
    /// length at 0, 2, 4 and 6, sweep at 2 and 6, envelope at 7.
    pub open spec fn sequencer_step(self) -> PulseSweepView {
        let clicked = if self.frame_step == 2 || self.frame_step == 6 {
            self.length_click().sweep_click()
        } else if self.frame_step == 0 || self.frame_step == 4 {
            self.length_click()
        } else if self.frame_step == 7 {
            self.volume_envelope_click()
        } else {
            self
        };
        PulseSweepView {
            frame_counter: 0,
            frame_step: if self.frame_step >= 7 {
                0
            } else {
                (self.frame_step + 1) as u8
            },
            ..clicked
        }
    }

    /// The frame sequencer after one cycle.
    pub open spec fn sequencer_cycle(self) -> PulseSweepView {
        if self.frame_counter + 1 >= FRAME_TICKS {
            self.sequencer_step()
        } else {
            PulseSweepView { frame_counter: (self.frame_counter + 1) as u16, ..self }
        }
    }

    /// The duty pointer after one cycle.
    pub open spec fn duty_cycle(self) -> PulseSweepView {
        if self.duty_advance_countdown > 0 {
            PulseSweepView {
                duty_advance_countdown: (self.duty_advance_countdown - 1) as u16,
                ..self
            }
        } else {
            PulseSweepView {
                duty_advance_countdown: self.duty_period(),
                duty_index: if self.duty_index >= 7 {
                    0
                } else {
                    (self.duty_index + 1) as u8
                },
                ..self
            }
        }
    }

    /// The channel after one cycle.
    pub open spec fn single_step(self) -> PulseSweepView {
        self.sequencer_cycle().duty_cycle()
    }

    /// The channel after a trigger: enabled, volume reloaded from NR12,
    /// envelope and sweep counters reset.
    pub open spec fn restart(self) -> PulseSweepView {
        PulseSweepView {
            enabled: true,
            volume: self.nr12 / 16,
            volume_envelope_active: true,
            volume_envelope_sweep_counter: 0,
            sweep_counter: 0,
            ..self
        }
    }

    pub open spec fn read(self, addr: u16) -> u8 {
        if addr == NR10 {
            self.nr10
        } else if addr == NR11 {
            self.nr11
        } else if addr == NR12 {
            self.nr12
        } else if addr == NR13 {
            self.nr13
        } else if addr == NR14 {
            self.nr14
        } else {
            0xff
        }
    }

    /// The channel after a write.  NR11 loads the length counter, NR12 the
    /// volume, and NR14 with bit 7 set triggers the channel.
    pub open spec fn write(self, addr: u16, value: u8) -> PulseSweepView {
        if addr == NR10 {
            PulseSweepView { nr10: value, ..self }
        } else if addr == NR11 {
            PulseSweepView { nr11: value, length_counter: value % 32, ..self }
        } else if addr == NR12 {
            PulseSweepView {
                nr12: value,
                volume: value / 16,
                volume_envelope_sweep_counter: 0,
                ..self
            }
        } else if addr == NR13 {
            PulseSweepView { nr13: value, ..self }
        } else if addr == NR14 {
            let stored = PulseSweepView { nr14: value, ..self };
            if value >= 0x80 {
                stored.restart()
            } else {
                stored
            }
        } else {
            self
        }
    }
}

#[derive(Clone, Copy, Debug)]
pub struct PulseSweepChannel {
    nr10: u8,
    nr11: u8,
    nr12: u8,
    nr13: u8,
    nr14: u8,
    enabled: bool,
    duty_advance_countdown: u16,
    frame_step: u8,
    length_counter: u8,
    volume: u8,
    duty_index: u8,
    sweep_counter: u8,
    volume_envelope_active: bool,
    volume_envelope_sweep_counter: u8,
    frame_counter: u16,
}

impl View for PulseSweepChannel {
    type V = PulseSweepView;

    closed spec fn view(&self) -> PulseSweepView {
        PulseSweepView {
            nr10: self.nr10,
            nr11: self.nr11,
            nr12: self.nr12,
            nr13: self.nr13,
            nr14: self.nr14,
            enabled: self.enabled,
            duty_advance_countdown: self.duty_advance_countdown,
            frame_step: self.frame_step,
            length_counter: self.length_counter,
            volume: self.volume,
            duty_index: self.duty_index,
            sweep_counter: self.sweep_counter,
            volume_envelope_active: self.volume_envelope_active,
            volume_envelope_sweep_counter: self.volume_envelope_sweep_counter,
            frame_counter: self.frame_counter,
        }
    }
}

impl PulseSweepChannel {
    pub fn new() -> (r: Self)
        ensures
            r@ == PulseSweepView::initial(),
            r@.wf(),
    {
        Self {
            nr10: 0,
            nr11: 0,
            nr12: 0,
            nr13: 0,
            nr14: 0,
            volume: 0,
            duty_index: 0,
            enabled: false,
            duty_advance_countdown: 0,
            sweep_counter: 0,
            volume_envelope_active: true,
            volume_envelope_sweep_counter: 0,
            frame_step: 0,
            length_counter: 0,
            frame_counter: 0,
        }
    }

    /// Lets one cycle pass: the frame sequencer first, then the duty
    /// pointer.
    pub fn single_step(&mut self)
        ensures
            final(self)@ == old(self)@.single_step(),
            old(self)@.wf() ==> final(self)@.wf(),
    {
        proof {
            lemma_single_step_keeps_wf(self@);
        }
        if self.frame_counter >= FRAME_TICKS - 1 {
            let step = self.frame_step;
            if step == 2 || step == 6 {
                self.length_click();
                self.sweep_click();
            } else if step == 0 || step == 4 {
                self.length_click();
            } else if step == 7 {
                self.volume_envelope_click();
            }
            self.frame_counter = 0;
            self.frame_step = if step >= 7 { 0 } else { step + 1 };
        } else {
            self.frame_counter = self.frame_counter + 1;
        }

        if self.duty_advance_countdown > 0 {
            self.duty_advance_countdown = self.duty_advance_countdown - 1;
        } else {
            self.duty_advance_countdown = self.required_cycles_for_duty_advance();
            self.duty_index = if self.duty_index >= 7 { 0 } else { self.duty_index + 1 };
        }
    }

    /// The output of the channel in fifteenths of full volume.
    pub fn get_volume(&self) -> (r: u8)
        ensures
            r == self@.level(),
    {
        if self.enabled && self.duty_high() {
            self.volume
        } else {
            0
        }
    }

    fn length_click(&mut self)
        ensures
            final(self)@ == old(self)@.length_click(),
    {
        if self.length_counter > 0 && self.stop_output_when_length_expires() {
            self.length_counter = self.length_counter - 1;
            if self.length_counter == 0 {
                self.enabled = false;
            }
        }
    }

    fn volume_envelope_click(&mut self)
        ensures
            final(self)@ == old(self)@.volume_envelope_click(),
    {
        let sweeps = self.volume_envelope_sweeps();
        if sweeps == 0 || !self.volume_envelope_active {
            return ;
        }
        if (self.volume_envelope_sweep_counter as u16) + 1 < sweeps as u16 {
            self.volume_envelope_sweep_counter = self.volume_envelope_sweep_counter + 1;
            return ;
        }
        self.volume_envelope_sweep_counter = 0;
        let incremental = self.incremental_volume_envelope();
        if incremental && self.volume < MAX_VOLUME {
            self.volume = self.volume + 1;
        } else if !incremental && self.volume > 0 {
            self.volume = self.volume - 1;
        } else {
            self.volume_envelope_active = false;
        }
    }

    fn sweep_click(&mut self)
        ensures
            final(self)@ == old(self)@.sweep_click(),
    {
        let sweep_time = self.sweep_time();
        if sweep_time == 0 {
            return ;
        }
        if (self.sweep_counter as u16) + 1 < sweep_time as u16 {
            self.sweep_counter = self.sweep_counter + 1;
            return ;
        }
        self.sweep_counter = 0;
        let sweep_shifts = self.sweep_shifts() as u16;
        let freq = self.frequency();
        let dfreq = freq >> sweep_shifts;
        proof {
            lemma_shift_shrinks(freq, sweep_shifts);
        }
        let new_freq: u16 = if self.incremental_sweep() {
            freq + dfreq
        } else {
            freq - dfreq
        };
        if new_freq < FREQUENCY_LIMIT {
            self.set_frequency(new_freq);
        } else {
            self.enabled = false;
        }
    }

    /// Cycles until the duty pointer moves on by one of its eight steps.
    fn required_cycles_for_duty_advance(&self) -> (r: u16)
        ensures
            r == self@.duty_period(),
            4 <= r <= 4 * FREQUENCY_LIMIT,
    {
        4 * (FREQUENCY_LIMIT - self.frequency())
    }

    /// Whether the wave is high at the current duty pointer.
    fn duty_high(&self) -> (r: bool)
        ensures
            r == self@.duty_high(),
    {
        let duty: u8 = self.nr11 / 64;
        let required_index_for_high: u8 = if duty == 0 {
            1
        } else if duty == 1 {
            2
        } else if duty == 2 {
            4
        } else {
            6
        };
        self.duty_index >= required_index_for_high
    }

    fn frequency(&self) -> (r: u16)
        ensures
            r == self@.frequency(),
            r < FREQUENCY_LIMIT,
    {
        ((self.nr14 % 8) as u16) * 256 + self.nr13 as u16
    }

    fn set_frequency(&mut self, freq: u16)
        requires
            freq < FREQUENCY_LIMIT,
        ensures
            final(self)@ == old(self)@.with_frequency(freq),
            final(self)@.frequency() == freq,
    {
        self.nr13 = (freq % 256) as u8;
        self.nr14 = (self.nr14 / 8) * 8 + ((freq / 256) % 8) as u8;
    }

    fn stop_output_when_length_expires(&self) -> (r: bool)
        ensures
            r == self@.length_enabled(),
    {
        (self.nr14 / 64) % 2 == 1
    }

    fn restart(&mut self)
        ensures
            final(self)@ == old(self)@.restart(),
    {
        self.enabled = true;
        self.volume = self.nr12 / 16;
        self.volume_envelope_active = true;
        self.volume_envelope_sweep_counter = 0;
        self.sweep_counter = 0;
    }

    fn sweep_time(&self) -> (r: u8)
        ensures
            r == self@.sweep_time(),
    {
        self.nr10 & 0x70
    }

    fn incremental_sweep(&self) -> (r: bool)
        ensures
            r == self@.sweep_rises(),
    {
        (self.nr10 / 8) % 2 == 0
    }

    fn sweep_shifts(&self) -> (r: u8)
        ensures
            r == self@.sweep_shifts(),
            r < 8,
    {
        self.nr10 % 8
    }

    fn incremental_volume_envelope(&self) -> (r: bool)
        ensures
            r == self@.envelope_rises(),
    {
        (self.nr12 / 8) % 2 == 1
    }

    fn volume_envelope_sweeps(&self) -> (r: u8)
        ensures
            r == self@.envelope_period(),
    {
        self.nr12 % 8
    }

    pub fn read_byte(&self, addr: u16) -> (r: u8)
        ensures
            r == self@.read(addr),
    {
        if addr == NR10 {
            self.nr10
        } else if addr == NR11 {
            self.nr11
        } else if addr == NR12 {
            self.nr12
        } else if addr == NR13 {
            self.nr13
        } else if addr == NR14 {
            self.nr14
        } else {
            0xff
        }
    }

    pub fn write_byte(&mut self, addr: u16, value: u8)
        ensures
            final(self)@ == old(self)@.write(addr, value),
            old(self)@.wf() ==> final(self)@.wf(),
    {
        if addr == NR10 {
            self.nr10 = value;
        } else if addr == NR11 {
            self.nr11 = value;
            self.length_counter = value % 32;
        } else if addr == NR12 {
            self.nr12 = value;
            self.volume = value / 16;
            self.volume_envelope_sweep_counter = 0;
        } else if addr == NR13 {
            self.nr13 = value;
        } else if addr == NR14 {
            self.nr14 = value;
            if value >= 0x80 {
                self.restart();
            }
        }
    }
}

/// A right shift never makes a frequency larger.
pub proof fn lemma_shift_shrinks(freq: u16, shifts: u16)
    requires
        shifts < 8,
    ensures
        freq >> shifts <= freq,
{
    assert(shifts < 8 ==> freq >> shifts <= freq) by (bit_vector);
}

/// One cycle keeps every counter within its period and the volume within
/// four bits.
pub proof fn lemma_single_step_keeps_wf(c: PulseSweepView)
    ensures
        c.wf() ==> c.single_step().wf(),
        c.wf() ==> c.length_click().wf(),
        c.wf() ==> c.sweep_click().wf(),
        c.wf() ==> c.volume_envelope_click().wf(),
{
}

/// A length counter that reaches zero silences the channel, and the
/// envelope never leaves the range of four bits.
pub proof fn lemma_clicks(c: PulseSweepView)
    requires
        c.wf(),
    ensures
        c.length_enabled() && c.length_counter == 1 ==> !c.length_click().enabled,
        c.volume_envelope_click().volume <= MAX_VOLUME,
        c.volume_envelope_click().volume - c.volume <= 1,
        c.volume - c.volume_envelope_click().volume <= 1,
        c.sweep_click().frequency() < FREQUENCY_LIMIT,
{
}

} // verus!
