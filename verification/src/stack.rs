//! The stack: what pushes and pops do to each other.

use vstd::prelude::*;
use crate::cpu::{CpuView, Machine};
use crate::mmu::{MmuView, HRAM_SIZE, WRAM_SIZE};
use crate::registers::RegisterFile;

verus! {

/// The machine after the words of `values` are pushed in turn.
pub open spec fn push_all(m: Machine, values: Seq<u16>) -> Machine
    decreases values.len(),
{
    if values.len() == 0 {
        m
    } else {
        push_all(m, values.drop_last()).push(values.last())
    }
}

/// The words that `count` pops give, in the order in which they come, and
/// the machine after them.
pub open spec fn pop_all(m: Machine, count: nat) -> (Seq<u16>, Machine)
    decreases count,
{
    if count == 0 {
        (Seq::empty(), m)
    } else {
        let (value, after) = m.pop();
        let (rest, end) = pop_all(after, (count - 1) as nat);
        (seq![value] + rest, end)
    }
}

/// Whether every address from `low` up to `high` lies in work memory, or
/// every one in high memory.
pub open spec fn in_ram(low: int, high: int) -> bool {
    (0xc000 <= low && high <= 0xe000) || (0xff80 <= low && high <= 0xffff)
}

/// Work memory and high memory have their sizes.
pub open spec fn ram_sized(bus: MmuView) -> bool {
    bus.wram.len() == WRAM_SIZE && bus.hram.len() == HRAM_SIZE
}

/// Whether two machines read the same at every address from `low` up to
/// `high`.
pub open spec fn agree(a: Machine, b: Machine, low: int, high: int) -> bool {
    forall|addr: u16| low <= addr < high ==> a.bus.read(addr) == b.bus.read(addr)
}

/// A push into memory moves the stack pointer down by two, stores the word
/// there and changes nothing else.
pub proof fn lemma_push(m: Machine, value: u16, low: int, high: int)
    requires
        ram_sized(m.bus),
        in_ram(low, high),
        low + 2 <= m.regs().sp <= high,
    ensures
        m.push(value).cpu == (CpuView {
            regs: RegisterFile { sp: (m.regs().sp - 2) as u16, ..m.regs() },
            ..m.cpu
        }),
        m.push(value).bus.read_word((m.regs().sp - 2) as u16) == value,
        m.push(value).pop() == (value, Machine { cpu: m.cpu, bus: m.push(value).bus }),
        ram_sized(m.push(value).bus),
        forall|addr: u16|
            low <= addr < high && addr != m.regs().sp - 2 && addr != m.regs().sp - 1
                ==> m.push(value).bus.read(addr) == m.bus.read(addr),
{
    let sp = (m.regs().sp - 2) as u16;
    let first = m.bus.write(sp, crate::registers::low_byte(value));
    assert(ram_sized(first));
    assert(value == (value / 256) * 256 + value % 256);
}

/// Pops see nothing but the registers and the memory from the stack
/// pointer upwards.
pub proof fn lemma_pop_all_agree(a: Machine, b: Machine, count: nat)
    requires
        a.cpu == b.cpu,
        a.regs().sp + 2 * count <= 0xffff,
        agree(a, b, a.regs().sp as int, a.regs().sp + 2 * count),
    ensures
        pop_all(a, count).0 == pop_all(b, count).0,
        pop_all(a, count).1.cpu == pop_all(b, count).1.cpu,
        pop_all(a, count).1.bus == a.bus,
        pop_all(a, count).1.cpu == (CpuView {
            regs: RegisterFile { sp: (a.regs().sp + 2 * count) as u16, ..a.regs() },
            ..a.cpu
        }),
        pop_all(a, count).0.len() == count,
    decreases count,
{
    if count > 0 {
        let sp = a.regs().sp;
        assert(a.bus.read(sp) == b.bus.read(sp));
        assert(a.bus.read((sp + 1) as u16) == b.bus.read((sp + 1) as u16));
        let (va, a1) = a.pop();
        let (vb, b1) = b.pop();
        assert(va == vb);
        lemma_pop_all_agree(a1, b1, (count - 1) as nat);
    }
}

/// After any sequence of pushes into work memory or high memory, as many
/// pops return the words in reverse order and leave the stack pointer, and
/// every other register, as they were.
pub proof fn lemma_push_pop(m: Machine, values: Seq<u16>, low: int, high: int)
    requires
        ram_sized(m.bus),
        in_ram(low, high),
        m.regs().sp <= high,
        low <= m.regs().sp - 2 * values.len(),
    ensures
        pop_all(push_all(m, values), values.len()).0 == values.reverse(),
        pop_all(push_all(m, values), values.len()).1.cpu == m.cpu,
        pop_all(push_all(m, values), values.len()).1.regs().sp == m.regs().sp,
        push_all(m, values).cpu == (CpuView {
            regs: RegisterFile { sp: (m.regs().sp - 2 * values.len()) as u16, ..m.regs() },
            ..m.cpu
        }),
        ram_sized(push_all(m, values).bus),
        agree(push_all(m, values), m, m.regs().sp as int, high),
    decreases values.len(),
{
    let n = values.len();
    if n == 0 {
        assert(pop_all(m, 0).0 =~= values.reverse());
    } else {
        let init = values.drop_last();
        let last = values.last();
        lemma_push_pop(m, init, low, high);
        let before = push_all(m, init);
        let pushed = before.push(last);
        lemma_push(before, last, low, high);
        let (value, after) = pushed.pop();
        assert(value == last);
        assert(after.cpu == before.cpu);
        assert(agree(after, before, before.regs().sp as int, high));
        lemma_pop_all_agree(after, before, (n - 1) as nat);
        let popped = pop_all(pushed, n).0;
        assert(popped == seq![last] + pop_all(after, (n - 1) as nat).0);
        assert(popped =~= values.reverse());
        lemma_pop_all_agree(pushed, pushed, n);
        assert(agree(pushed, m, m.regs().sp as int, high)) by {
            assert forall|addr: u16| m.regs().sp <= addr < high implies pushed.bus.read(addr)
                == m.bus.read(addr) by {
                assert(before.bus.read(addr) == m.bus.read(addr));
            }
        }
    }
}

} // verus!
