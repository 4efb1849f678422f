//! What the sound channels share: the frame sequencer's period and the
//! reading and writing of a bank of registers.

use vstd::prelude::*;

verus! {

/// The frame sequencer runs at 512 Hz: one step every 8192 cycles.
pub const FRAME_TICKS: u16 = 8192;

/// The byte of a register bank that starts at `base`, or `0xFF` when
/// `addr` is outside it.
pub open spec fn bank_read(bank: Seq<u8>, base: u16, addr: u16) -> u8 {
    if base <= addr < base + bank.len() {
        bank[addr - base]
    } else {
        0xff
    }
}

/// The bank after `value` is stored at `addr`; unchanged when `addr` is
/// outside it.
pub open spec fn bank_write(bank: Seq<u8>, base: u16, addr: u16, value: u8) -> Seq<u8> {
    if base <= addr < base + bank.len() {
        bank.update(addr - base, value)
    } else {
        bank
    }
}

/// A write is read back at its own address and leaves the others alone.
pub proof fn lemma_bank_write_read(bank: Seq<u8>, base: u16, addr: u16, value: u8, other: u16)
    ensures
        base <= addr < base + bank.len() ==> bank_read(bank_write(bank, base, addr, value), base, addr)
            == value,
        other != addr ==> bank_read(bank_write(bank, base, addr, value), base, other) == bank_read(
            bank,
            base,
            other,
        ),
        bank_write(bank, base, addr, value).len() == bank.len(),
{
}

} // verus!
