//! The timer: the free-running divider DIV and the programmable counter
//! TIMA with its reload value TMA and its control byte TAC.

use vstd::prelude::*;
use crate::irq::{raised, Irq, TIMER_BIT};

verus! {

pub const DIV_ADDR: u16 = 0xff04;

pub const TIMA_ADDR: u16 = 0xff05;

pub const TMA_ADDR: u16 = 0xff06;

pub const TAC_ADDR: u16 = 0xff07;


/// Cycles per increment of TIMA for the two low bits of TAC.
pub open spec fn spec_period(control: u8) -> int {
    let select = control % 4;
    if select == 0 {
        1024
    } else if select == 1 {
        16
    } else if select == 2 {
        64
    } else {
        256
    }
}

/// Whether TAC lets TIMA count: its bit 2.
pub open spec fn spec_enabled(control: u8) -> bool {
    (control / 4) % 2 == 1
}

/// TIMA after one increment: an overflow reloads it from TMA.
pub open spec fn tick(counter: u8, modulo: u8) -> u8 {
    if counter == 0xff {
        modulo
    } else {
        (counter + 1) as u8
    }
}

/// TIMA after `k` increments.
pub open spec fn counter_after(counter: u8, modulo: u8, k: nat) -> u8
    decreases k,
{
    if k == 0 {
        counter
    } else {
        tick(counter_after(counter, modulo, (k - 1) as nat), modulo)
    }
}

/// Whether TIMA overflows during `k` increments.
pub open spec fn overflows_within(counter: u8, modulo: u8, k: nat) -> bool
    decreases k,
{
    if k == 0 {
        false
    } else {
        overflows_within(counter, modulo, (k - 1) as nat) || counter_after(
            counter,
            modulo,
            (k - 1) as nat,
        ) == 0xff
    }
}

/// The sum of a sequence of cycle counts.
pub open spec fn total_cycles(steps: Seq<u8>) -> int
    decreases steps.len(),
{
    if steps.len() == 0 {
        0
    } else {
        total_cycles(steps.drop_last()) + steps.last()
    }
}

/// The mathematical content of the timer.
pub struct TimerView {
    pub divider: u8,
    pub counter: u8,
    pub modulo: u8,
    pub control: u8,
    /// Cycles counted towards the next increment of DIV.
    pub internal_divider: u16,
    /// Cycles counted towards the next increment of TIMA.
    pub internal_timer: u16,
}

impl TimerView {
    /// Both prescalers are below their periods' upper bounds.
    pub open spec fn wf(self) -> bool {
        &&& self.internal_divider < 256
        &&& self.internal_timer < 1024
    }

    pub open spec fn initial() -> TimerView {
        TimerView {
            divider: 0,
            counter: 0,
            modulo: 0,
            control: 0,
            internal_divider: 0,
            internal_timer: 0,
        }
    }

    /// How often TIMA is incremented when `steps` cycles pass.
    pub open spec fn increments(self, steps: u8) -> nat {
        if spec_enabled(self.control) {
            ((self.internal_timer + steps) / spec_period(self.control)) as nat
        } else {
            0
        }
    }

    /// Whether a timer interrupt is requested when `steps` cycles pass.
    pub open spec fn fires(self, steps: u8) -> bool {
        overflows_within(self.counter, self.modulo, self.increments(steps))
    }

    /// The timer after `steps` cycles.
    pub open spec fn step(self, steps: u8) -> TimerView {
        TimerView {
            divider: ((self.divider + (self.internal_divider + steps) / 256) % 256) as u8,
            internal_divider: ((self.internal_divider + steps) % 256) as u16,
            counter: counter_after(self.counter, self.modulo, self.increments(steps)),
            internal_timer: if spec_enabled(self.control) {
                ((self.internal_timer + steps) % spec_period(self.control)) as u16
            } else {
                self.internal_timer
            },
            ..self
        }
    }

    /// The timer after each count of `steps` has passed in turn.
    pub open spec fn run(self, steps: Seq<u8>) -> TimerView
        decreases steps.len(),
    {
        if steps.len() == 0 {
            self
        } else {
            self.run(steps.drop_last()).step(steps.last())
        }
    }

    /// The byte read at `addr`; `0xFF` outside the four registers.
    pub open spec fn read(self, addr: u16) -> u8 {
        if addr == DIV_ADDR {
            self.divider
        } else if addr == TIMA_ADDR {
            self.counter
        } else if addr == TMA_ADDR {
            self.modulo
        } else if addr == TAC_ADDR {
            self.control
        } else {
            0xff
        }
    }

    /// The timer after a write: any value written to DIV clears it.
    pub open spec fn write(self, addr: u16, val: u8) -> TimerView {
        if addr == DIV_ADDR {
            TimerView { divider: 0, ..self }
        } else if addr == TIMA_ADDR {
            TimerView { counter: val, ..self }
        } else if addr == TMA_ADDR {
            TimerView { modulo: val, ..self }
        } else if addr == TAC_ADDR {
            TimerView { control: val, ..self }
        } else {
            self
        }
    }
}

#[derive(Clone, Copy, Debug)]
pub struct Timer {
    divider: u8,
    timer_counter: u8,
    timer_modulo: u8,
    timer_control: u8,
    internal_divider: u16,
    internal_timer: u16,
}

impl View for Timer {
    type V = TimerView;

    closed spec fn view(&self) -> TimerView {
        TimerView {
            divider: self.divider,
            counter: self.timer_counter,
            modulo: self.timer_modulo,
            control: self.timer_control,
            internal_divider: self.internal_divider,
            internal_timer: self.internal_timer,
        }
    }
}

/// Cycles per increment of TIMA for the two low bits of TAC.
pub fn period(control: u8) -> (r: u16)
    ensures
        r == spec_period(control),
        r == 16 || r == 64 || r == 256 || r == 1024,
{
    let select: u8 = control % 4;
    if select == 0 {
        1024
    } else if select == 1 {
        16
    } else if select == 2 {
        64
    } else {
        256
    }
}

impl Timer {
    pub fn new() -> (r: Self)
        ensures
            r@ == TimerView::initial(),
            r@.wf(),
    {
        Self {
            divider: 0,
            timer_counter: 0,
            timer_modulo: 0,
            timer_control: 0,
            internal_divider: 0,
            internal_timer: 0,
        }
    }

    /// Lets `steps` cycles pass.  DIV goes up once for each multiple of 256
    /// that its prescaler crosses; while TAC enables it, TIMA goes up once
    /// for each multiple of the selected period, and each overflow reloads
    /// it from TMA and requests the timer interrupt.
    pub fn step(&mut self, steps: u8, irq: &mut Irq)
        ensures
            final(self)@ == old(self)@.step(steps),
            final(irq)@ == raised(old(irq)@, old(self)@.fires(steps), TIMER_BIT),
            old(self)@.wf() ==> final(self)@.wf(),
    {
        let div_total: u32 = self.internal_divider as u32 + steps as u32;
        self.divider = ((self.divider as u32 + div_total / 256) % 256) as u8;
        self.internal_divider = (div_total % 256) as u16;

        let timer_enabled = (self.timer_control / 4) % 2 == 1;
        if timer_enabled {
            let per: u32 = period(self.timer_control) as u32;
            let total: u32 = self.internal_timer as u32 + steps as u32;
            let increments: u32 = total / per;
            self.internal_timer = (total % per) as u16;
            let ghost start = self.timer_counter;
            let mut fired = false;
            let mut i: u32 = 0;
            while i < increments
                invariant
                    i <= increments,
                    self.timer_counter == counter_after(start, self.timer_modulo, i as nat),
                    fired == overflows_within(start, self.timer_modulo, i as nat),
                    self.timer_modulo == old(self).timer_modulo,
                    self.timer_control == old(self).timer_control,
                    self.divider == old(self)@.step(steps).divider,
                    self.internal_divider == old(self)@.step(steps).internal_divider,
                    self.internal_timer == total % per,
                decreases increments - i,
            {
                if self.timer_counter == 0xff {
                    self.timer_counter = self.timer_modulo;
                    fired = true;
                } else {
                    self.timer_counter = self.timer_counter + 1;
                }
                i += 1;
            }
            if fired {
                irq.timer_interrupt();
            }
        }
    }

    pub fn read_byte(&self, addr: u16) -> (r: u8)
        ensures
            r == self@.read(addr),
    {
        if addr == DIV_ADDR {
            self.divider
        } else if addr == TIMA_ADDR {
            self.timer_counter
        } else if addr == TMA_ADDR {
            self.timer_modulo
        } else if addr == TAC_ADDR {
            self.timer_control
        } else {
            0xff
        }
    }

    pub fn write_byte(&mut self, addr: u16, val: u8)
        ensures
            final(self)@ == old(self)@.write(addr, val),
    {
        if addr == DIV_ADDR {
            self.divider = 0;
        } else if addr == TIMA_ADDR {
            self.timer_counter = val;
        } else if addr == TMA_ADDR {
            self.timer_modulo = val;
        } else if addr == TAC_ADDR {
            self.timer_control = val;
        }
    }
}

/// After any sequence of steps that sums to `k` cycles, DIV has gone up by
/// the number of multiples of 256 that its prescaler crossed, modulo 256,
/// and the prescaler holds the remainder.
pub proof fn lemma_divider_after_run(t: TimerView, steps: Seq<u8>)
    requires
        t.wf(),
    ensures
        t.run(steps).divider == (t.divider + (t.internal_divider + total_cycles(steps)) / 256)
            % 256,
        t.run(steps).internal_divider == (t.internal_divider + total_cycles(steps)) % 256,
        total_cycles(steps) >= 0,
    decreases steps.len(),
{
    if steps.len() > 0 {
        lemma_divider_after_run(t, steps.drop_last());
        let before = t.run(steps.drop_last());
        let a = t.internal_divider + total_cycles(steps.drop_last());
        let n = steps.last() as int;
        let d = t.divider as int;
        assert(before.internal_divider == a % 256);
        assert((a % 256 + n) / 256 + a / 256 == (a + n) / 256);
        assert((a % 256 + n) % 256 == (a + n) % 256);
        assert(((d + a / 256) % 256 + (a % 256 + n) / 256) % 256 == (d + (a + n) / 256) % 256);
    }
}

/// A step keeps both prescalers in range.
pub proof fn lemma_step_keeps_wf(t: TimerView, steps: u8)
    requires
        t.wf(),
    ensures
        t.step(steps).wf(),
{
}

} // verus!
