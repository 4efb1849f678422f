//! The sound unit.

pub mod common;
pub mod noise;
pub mod pulse;
pub mod pulsesweep;
pub mod wave;

use vstd::prelude::*;
use crate::sound::noise::NoiseChannel;
use crate::sound::pulse::PulseChannel;
use crate::sound::pulsesweep::{PulseSweepChannel, PulseSweepView};
use crate::sound::wave::{WaveChannel, WaveChannelView};
use crate::sound::common::{bank_read, bank_write};

verus! {

/// Stereo frames per second of the output.
pub const SAMPLE_RATE: usize = 44_100;

/// Cycles per output frame: 4,194,304 Hz over 44,100 Hz, rounded down.
pub const SAMPLE_TICKS: u8 = 95;

/// Entries of one second of stereo output; a buffer that reaches this
/// size is dropped.
pub const BUFFER_LIMIT: usize = 88_200;

pub const NR50: u16 = 0xff24;

pub const NR51: u16 = 0xff25;

pub const NR52: u16 = 0xff26;

/// The mathematical content of the sound unit.
pub struct ApuView {
    pub pulse: Seq<u8>,
    pub pulsesweep: PulseSweepView,
    pub wave: WaveChannelView,
    pub noise: Seq<u8>,
    pub volume_register: u8,
    pub output_register: u8,
    pub on_off_register: u8,
    /// Cycles counted towards the next output frame.
    pub sample_counter: u8,
    /// Pending output, left and right interleaved, in fifteenths of full
    /// volume.
    pub audio_buffer: Seq<u8>,
}

impl ApuView {
    pub open spec fn wf(self) -> bool {
        &&& self.pulse.len() == pulse::REGISTERS
        &&& self.noise.len() == noise::REGISTERS
        &&& self.wave.wf()
        &&& self.pulsesweep.wf()
        &&& self.sample_counter < SAMPLE_TICKS
        &&& self.audio_buffer.len() < BUFFER_LIMIT
        &&& self.audio_buffer.len() % 2 == 0
    }

    pub open spec fn initial() -> ApuView {
        ApuView {
            pulse: Seq::new(pulse::REGISTERS as nat, |i: int| 0u8),
            pulsesweep: PulseSweepView::initial(),
            wave: WaveChannelView::initial(),
            noise: Seq::new(noise::REGISTERS as nat, |i: int| 0u8),
            volume_register: 0,
            output_register: 0,
            on_off_register: 0,
            sample_counter: 0,
            audio_buffer: Seq::empty(),
        }
    }

    /// The buffer after one stereo frame of `level` is added; a buffer that
    /// reaches one second is dropped.
    pub open spec fn pushed(buffer: Seq<u8>, level: u8) -> Seq<u8> {
        let longer = buffer.push(level).push(level);
        if longer.len() >= BUFFER_LIMIT {
            Seq::empty()
        } else {
            longer
        }
    }

    /// The unit after one cycle: the channel moves on, and every 95th cycle
    /// its level is sampled.
    pub open spec fn cycle(self) -> ApuView {
        let channel = self.pulsesweep.single_step();
        if self.sample_counter + 1 >= SAMPLE_TICKS {
            ApuView {
                pulsesweep: channel,
                sample_counter: 0,
                audio_buffer: Self::pushed(self.audio_buffer, channel.level()),
                ..self
            }
        } else {
            ApuView { pulsesweep: channel, sample_counter: (self.sample_counter + 1) as u8, ..self }
        }
    }

    /// The unit after `steps` cycles.
    pub open spec fn step(self, steps: nat) -> ApuView
        decreases steps,
    {
        if steps == 0 {
            self
        } else {
            self.step((steps - 1) as nat).cycle()
        }
    }

    /// The unit after its pending output has been taken.
    pub open spec fn drained(self) -> ApuView {
        ApuView { audio_buffer: Seq::empty(), ..self }
    }

    /// The byte at `addr`, from the channel or mixing register that owns
    /// it; `0xFF` where nothing is mapped.
    pub open spec fn read(self, addr: u16) -> u8 {
        if 0xff10 <= addr <= 0xff14 {
            self.pulsesweep.read(addr)
        } else if 0xff16 <= addr <= 0xff19 {
            bank_read(self.pulse, pulse::BASE, addr)
        } else if 0xff1a <= addr <= 0xff1e || 0xff30 <= addr <= 0xff3f {
            self.wave.read(addr)
        } else if 0xff20 <= addr <= 0xff23 {
            bank_read(self.noise, noise::BASE, addr)
        } else if addr == NR50 {
            self.volume_register
        } else if addr == NR51 {
            self.output_register
        } else if addr == NR52 {
            self.on_off_register
        } else {
            0xff
        }
    }

    /// The unit after a write; nothing changes where nothing is mapped.
    pub open spec fn write(self, addr: u16, value: u8) -> ApuView {
        if 0xff10 <= addr <= 0xff14 {
            ApuView { pulsesweep: self.pulsesweep.write(addr, value), ..self }
        } else if 0xff16 <= addr <= 0xff19 {
            ApuView { pulse: bank_write(self.pulse, pulse::BASE, addr, value), ..self }
        } else if 0xff1a <= addr <= 0xff1e || 0xff30 <= addr <= 0xff3f {
            ApuView { wave: self.wave.write(addr, value), ..self }
        } else if 0xff20 <= addr <= 0xff23 {
            ApuView { noise: bank_write(self.noise, noise::BASE, addr, value), ..self }
        } else if addr == NR50 {
            ApuView { volume_register: value, ..self }
        } else if addr == NR51 {
            ApuView { output_register: value, ..self }
        } else if addr == NR52 {
            ApuView { on_off_register: value, ..self }
        } else {
            self
        }
    }
}

/// The sound unit: four channels, the mixing registers and the pending
/// output.
pub struct Apu {
    pulse_channel: PulseChannel,
    pulsesweep_channel: PulseSweepChannel,
    wave_channel: WaveChannel,
    noise_channel: NoiseChannel,
    volume_register: u8,
    output_register: u8,
    on_off_register: u8,
    sample_counter: u8,
    audio_buffer: Vec<u8>,
}

impl View for Apu {
    type V = ApuView;

    closed spec fn view(&self) -> ApuView {
        ApuView {
            pulse: self.pulse_channel@,
            pulsesweep: self.pulsesweep_channel@,
            wave: self.wave_channel@,
            noise: self.noise_channel@,
            volume_register: self.volume_register,
            output_register: self.output_register,
            on_off_register: self.on_off_register,
            sample_counter: self.sample_counter,
            audio_buffer: self.audio_buffer@,
        }
    }
}

impl Apu {
    pub fn new() -> (r: Self)
        ensures
            r@ == ApuView::initial(),
            r@.wf(),
    {
        Self {
            pulse_channel: PulseChannel::new(),
            pulsesweep_channel: PulseSweepChannel::new(),
            wave_channel: WaveChannel::new(),
            noise_channel: NoiseChannel::new(),
            volume_register: 0,
            output_register: 0,
            on_off_register: 0,
            sample_counter: 0,
            audio_buffer: Vec::new(),
        }
    }

    /// Lets one cycle pass.
    fn cycle(&mut self)
        ensures
            final(self)@ == old(self)@.cycle(),
            old(self)@.wf() ==> final(self)@.wf(),
    {
        self.pulsesweep_channel.single_step();
        if self.sample_counter >= SAMPLE_TICKS - 1 {
            self.sample_counter = 0;
            let level = self.pulsesweep_channel.get_volume();
            self.audio_buffer.push(level);
            self.audio_buffer.push(level);
            if self.audio_buffer.len() >= BUFFER_LIMIT {
                self.audio_buffer.clear();
            }
        } else {
            self.sample_counter = self.sample_counter + 1;
        }
    }

    /// Lets `steps` cycles pass, sampling the output every 95th cycle.
    pub fn step(&mut self, steps: u8)
        ensures
            final(self)@ == old(self)@.step(steps as nat),
            old(self)@.wf() ==> final(self)@.wf(),
    {
        let mut i: u8 = 0;
        while i < steps
            invariant
                i <= steps,
                self@ == old(self)@.step(i as nat),
                old(self)@.wf() ==> self@.wf(),
            decreases steps - i,
        {
            self.cycle();
            i += 1;
        }
    }

    /// Hands out the pending output and leaves the buffer empty.
    pub fn audio_buffer(&mut self) -> (buffer: Vec<u8>)
        ensures
            buffer@ == old(self)@.audio_buffer,
            final(self)@ == old(self)@.drained(),
            old(self)@.wf() ==> final(self)@.wf(),
    {
        let mut buffer: Vec<u8> = Vec::new();
        core::mem::swap(&mut self.audio_buffer, &mut buffer);
        buffer
    }

    pub fn read_byte(&self, addr: u16) -> (r: u8)
        ensures
            r == self@.read(addr),
    {
        if 0xff10 <= addr && addr <= 0xff14 {
            self.pulsesweep_channel.read_byte(addr)
        } else if 0xff16 <= addr && addr <= 0xff19 {
            self.pulse_channel.read_byte(addr)
        } else if (0xff1a <= addr && addr <= 0xff1e) || (0xff30 <= addr && addr <= 0xff3f) {
            self.wave_channel.read_byte(addr)
        } else if 0xff20 <= addr && addr <= 0xff23 {
            self.noise_channel.read_byte(addr)
        } else if addr == NR50 {
            self.volume_register
        } else if addr == NR51 {
            self.output_register
        } else if addr == NR52 {
            self.on_off_register
        } else {
            0xff
        }
    }

    pub fn write_byte(&mut self, addr: u16, value: u8)
        ensures
            final(self)@ == old(self)@.write(addr, value),
            old(self)@.wf() ==> final(self)@.wf(),
    {
        if 0xff10 <= addr && addr <= 0xff14 {
            self.pulsesweep_channel.write_byte(addr, value);
        } else if 0xff16 <= addr && addr <= 0xff19 {
            self.pulse_channel.write_byte(addr, value);
        } else if (0xff1a <= addr && addr <= 0xff1e) || (0xff30 <= addr && addr <= 0xff3f) {
            self.wave_channel.write_byte(addr, value);
        } else if 0xff20 <= addr && addr <= 0xff23 {
            self.noise_channel.write_byte(addr, value);
        } else if addr == NR50 {
            self.volume_register = value;
        } else if addr == NR51 {
            self.output_register = value;
        } else if addr == NR52 {
            self.on_off_register = value;
        }
    }
}

/// Steps add up: `a` cycles and then `b` cycles are `a + b` cycles.
pub proof fn lemma_step_adds(apu: ApuView, a: nat, b: nat)
    ensures
        apu.step(a).step(b) == apu.step(a + b),
    decreases b,
{
    if b > 0 {
        lemma_step_adds(apu, a, (b - 1) as nat);
        assert(apu.step(a + b) == apu.step((a + b - 1) as nat).cycle());
    }
}

/// The pending output never reaches one second and always holds whole
/// stereo frames.
pub proof fn lemma_buffer_bounded(apu: ApuView, steps: nat)
    requires
        apu.wf(),
    ensures
        apu.step(steps).wf(),
        apu.step(steps).audio_buffer.len() < BUFFER_LIMIT,
    decreases steps,
{
    if steps > 0 {
        lemma_buffer_bounded(apu, (steps - 1) as nat);
        pulsesweep::lemma_single_step_keeps_wf(apu.step((steps - 1) as nat).pulsesweep);
    }
}

} // verus!
