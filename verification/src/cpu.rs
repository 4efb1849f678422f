//! The SM83 interpreter.
//!
//! The meaning of every instruction is stated once, as a function from
//! the state of the machine to its next state and the cycles that pass;
//! the interpreter is proved to compute exactly that.

use vstd::prelude::*;
use crate::alu::{
    apply, daa, rotate, signed_byte_to_u16, spec_add16, spec_add8, spec_apply, spec_daa,
    spec_rotate, spec_sext, spec_sub8, Flags,
};
use crate::bits::{bit, bit_of, clear_bit, set_bit, with_bit, without_bit};
use crate::instruction::{
    decode, decode_cb, spec_decode, spec_decode_cb, AluOp, CbInstr, Cond, Instr, Pointer, RotOp,
    StackPair, Target, Wide,
};
use crate::mmu::{Mmu, MmuView};
use crate::registers::{low_byte, pair, RegisterFile, Registers};

verus! {

/// Cycles that the service of an interrupt takes.
pub const SERVICE_CYCLES: u8 = 20;

/// Cycles that pass in one step while the processor is halted.
pub const HALT_CYCLES: u8 = 4;

/// The most cycles that one step can take.
pub const MAX_CYCLES: u8 = 24;

/// The fewest cycles that one step can take.
pub const MIN_CYCLES: u8 = 4;

/// Why a step could not be made.
#[derive(Clone, Copy, Debug, PartialEq, Eq, Structural)]
pub enum CpuError {
    /// The byte at `pc` stands for no instruction.
    InvalidOpcode { byte: u8, pc: u16 },
}

/// The mathematical content of the processor.
pub struct CpuView {
    pub regs: RegisterFile,
    /// The master enable of interrupts.
    pub ime: bool,
    /// Whether the processor waits for an interrupt.
    pub halted: bool,
}

/// The processor together with the bus that it drives.
pub struct Machine {
    pub cpu: CpuView,
    pub bus: MmuView,
}

/// `word` moved by `by`, modulo 65536.
pub open spec fn wrapping_add16(word: u16, by: int) -> u16 {
    ((word + by) % 65536) as u16
}

/// `byte` moved by `by`, modulo 256.
pub open spec fn wrapping_add8(byte: u8, by: int) -> u8 {
    ((byte + by) % 256) as u8
}

/// The number of the lowest set bit among the five interrupt sources.
pub open spec fn lowest_source(pending: u8) -> nat {
    if bit_of(pending as int, 0) {
        0
    } else if bit_of(pending as int, 1) {
        1
    } else if bit_of(pending as int, 2) {
        2
    } else if bit_of(pending as int, 3) {
        3
    } else {
        4
    }
}

/// The address that the service of interrupt source `source` jumps to.
pub open spec fn vector_of(source: nat) -> u16 {
    (0x40 + 8 * source) as u16
}

impl RegisterFile {
    pub open spec fn flagged(self, flags: Flags) -> RegisterFile {
        self.with_flags(flags.zero, flags.negative, flags.half_carry, flags.carry)
    }

    pub open spec fn wide(self, w: Wide) -> u16 {
        match w {
            Wide::BC => self.bc(),
            Wide::DE => self.de(),
            Wide::HL => self.hl(),
            Wide::SP => self.sp,
        }
    }

    pub open spec fn with_wide(self, w: Wide, value: u16) -> RegisterFile {
        match w {
            Wide::BC => self.with_bc(value),
            Wide::DE => self.with_de(value),
            Wide::HL => self.with_hl(value),
            Wide::SP => RegisterFile { sp: value, ..self },
        }
    }

    pub open spec fn stack_pair(self, p: StackPair) -> u16 {
        match p {
            StackPair::BC => self.bc(),
            StackPair::DE => self.de(),
            StackPair::HL => self.hl(),
            StackPair::AF => self.af(),
        }
    }

    pub open spec fn with_stack_pair(self, p: StackPair, value: u16) -> RegisterFile {
        match p {
            StackPair::BC => self.with_bc(value),
            StackPair::DE => self.with_de(value),
            StackPair::HL => self.with_hl(value),
            StackPair::AF => self.with_af(value),
        }
    }

    /// The address that a pointer stands for.
    pub open spec fn pointer(self, p: Pointer) -> u16 {
        match p {
            Pointer::BC => self.bc(),
            Pointer::DE => self.de(),
            Pointer::HlIncrement => self.hl(),
            Pointer::HlDecrement => self.hl(),
        }
    }

    /// The registers once a pointer has been used: HL moves on or back
    /// where the pointer says so.
    pub open spec fn past_pointer(self, p: Pointer) -> RegisterFile {
        match p {
            Pointer::BC => self,
            Pointer::DE => self,
            Pointer::HlIncrement => self.with_hl(wrapping_add16(self.hl(), 1)),
            Pointer::HlDecrement => self.with_hl(wrapping_add16(self.hl(), -1)),
        }
    }

    /// Whether a condition holds of the flags.
    pub open spec fn holds(self, cond: Cond) -> bool {
        match cond {
            Cond::Always => true,
            Cond::NotZero => !self.zero,
            Cond::Zero => self.zero,
            Cond::NotCarry => !self.carry,
            Cond::Carry => self.carry,
        }
    }

    /// SP moved by a signed byte, with the flags that `ADD SP,r8` and
    /// `LD HL,SP+r8` share: Z and N cleared, H and C from the unsigned
    /// addition of the byte to the low byte of SP.
    pub open spec fn sp_offset(self, offset: u8) -> (u16, Flags) {
        let low = spec_add8(low_byte(self.sp), offset);
        (
            spec_add16(self.sp, spec_sext(offset)).0,
            Flags { zero: false, negative: false, half_carry: low.2, carry: low.1 },
        )
    }

    /// An arithmetic or logic operation on A and `value`.
    pub open spec fn alu(self, op: AluOp, value: u8) -> RegisterFile {
        let r = spec_apply(op, self.a, value, self.carry);
        RegisterFile { a: r.0, ..self }.flagged(r.1)
    }

    /// `RLCA`, `RRCA`, `RLA`, `RRA`: A is rotated, Z, N and H are cleared,
    /// C takes the ejected bit.
    pub open spec fn rotate_a(self, op: RotOp) -> RegisterFile {
        let r = spec_rotate(op, self.a, self.carry);
        RegisterFile { a: r.0, ..self }.flagged(
            Flags { zero: false, negative: false, half_carry: false, carry: r.1 },
        )
    }

    /// `ADD HL,rr`: Z kept, N cleared, H and C from bits 11 and 15.
    pub open spec fn add_hl(self, value: u16) -> RegisterFile {
        let r = spec_add16(self.hl(), value);
        self.with_hl(r.0).with_flags(self.zero, false, r.2, r.1)
    }

    /// `DAA`: A is adjusted to packed decimal, Z from the result, H
    /// cleared, N kept.
    pub open spec fn decimal_adjust(self) -> RegisterFile {
        let r = spec_daa(self.a, self.negative, self.half_carry, self.carry);
        RegisterFile { a: r.0, ..self }.flagged(
            Flags { zero: r.0 == 0, negative: self.negative, half_carry: false, carry: r.1 },
        )
    }
}

impl CpuView {
    pub open spec fn with_regs(self, regs: RegisterFile) -> CpuView {
        CpuView { regs, ..self }
    }
}

impl Machine {
    pub open spec fn regs(self) -> RegisterFile {
        self.cpu.regs
    }

    pub open spec fn with_regs(self, regs: RegisterFile) -> Machine {
        Machine { cpu: CpuView { regs, ..self.cpu }, ..self }
    }

    pub open spec fn with_pc(self, pc: u16) -> Machine {
        self.with_regs(RegisterFile { pc, ..self.regs() })
    }

    pub open spec fn with_flags(self, flags: Flags) -> Machine {
        self.with_regs(self.regs().flagged(flags))
    }

    pub open spec fn store(self, addr: u16, value: u8) -> Machine {
        Machine { bus: self.bus.write(addr, value), ..self }
    }

    /// The byte at the program counter, and the machine past it.
    pub open spec fn fetch_byte(self) -> (u8, Machine) {
        (self.bus.read(self.regs().pc), self.with_regs(self.regs().with_pc_advanced(1)))
    }

    /// The word at the program counter, and the machine past it.
    pub open spec fn fetch_word(self) -> (u16, Machine) {
        (self.bus.read_word(self.regs().pc), self.with_regs(self.regs().with_pc_advanced(2)))
    }

    /// The machine after `value` is pushed: the stack pointer goes down by
    /// two and the word is stored there, low byte first.
    pub open spec fn push(self, value: u16) -> Machine {
        let sp = wrapping_add16(self.regs().sp, -2);
        Machine {
            cpu: CpuView { regs: RegisterFile { sp, ..self.regs() }, ..self.cpu },
            bus: self.bus.write_word(sp, value),
        }
    }

    /// The word on top of the stack, and the machine after it is popped.
    pub open spec fn pop(self) -> (u16, Machine) {
        (
            self.bus.read_word(self.regs().sp),
            self.with_regs(
                RegisterFile { sp: wrapping_add16(self.regs().sp, 2), ..self.regs() },
            ),
        )
    }

    pub open spec fn target(self, t: Target) -> u8 {
        match t {
            Target::B => self.regs().b,
            Target::C => self.regs().c,
            Target::D => self.regs().d,
            Target::E => self.regs().e,
            Target::H => self.regs().h,
            Target::L => self.regs().l,
            Target::HlIndirect => self.bus.read(self.regs().hl()),
            Target::A => self.regs().a,
        }
    }

    pub open spec fn with_target(self, t: Target, value: u8) -> Machine {
        match t {
            Target::B => self.with_regs(RegisterFile { b: value, ..self.regs() }),
            Target::C => self.with_regs(RegisterFile { c: value, ..self.regs() }),
            Target::D => self.with_regs(RegisterFile { d: value, ..self.regs() }),
            Target::E => self.with_regs(RegisterFile { e: value, ..self.regs() }),
            Target::H => self.with_regs(RegisterFile { h: value, ..self.regs() }),
            Target::L => self.with_regs(RegisterFile { l: value, ..self.regs() }),
            Target::HlIndirect => self.store(self.regs().hl(), value),
            Target::A => self.with_regs(RegisterFile { a: value, ..self.regs() }),
        }
    }

    pub open spec fn wide(self, w: Wide) -> u16 {
        self.regs().wide(w)
    }

    pub open spec fn with_wide(self, w: Wide, value: u16) -> Machine {
        self.with_regs(self.regs().with_wide(w, value))
    }

    pub open spec fn stack_pair(self, p: StackPair) -> u16 {
        self.regs().stack_pair(p)
    }

    pub open spec fn with_stack_pair(self, p: StackPair, value: u16) -> Machine {
        self.with_regs(self.regs().with_stack_pair(p, value))
    }

    pub open spec fn pointer(self, p: Pointer) -> u16 {
        self.regs().pointer(p)
    }

    pub open spec fn past_pointer(self, p: Pointer) -> Machine {
        self.with_regs(self.regs().past_pointer(p))
    }

    pub open spec fn holds(self, cond: Cond) -> bool {
        self.regs().holds(cond)
    }

    pub open spec fn sp_offset(self, offset: u8) -> (u16, Flags) {
        self.regs().sp_offset(offset)
    }

    pub open spec fn alu(self, op: AluOp, value: u8) -> Machine {
        self.with_regs(self.regs().alu(op, value))
    }

    pub open spec fn rotate_a(self, op: RotOp) -> Machine {
        self.with_regs(self.regs().rotate_a(op))
    }

    pub open spec fn decimal_adjust(self) -> Machine {
        self.with_regs(self.regs().decimal_adjust())
    }

    /// `HALT`: the processor waits for an interrupt.
    pub open spec fn halt(self) -> Machine {
        Machine { cpu: CpuView { halted: true, ..self.cpu }, ..self }
    }

    /// `EI` and `DI`: the master enable is set or cleared at once.
    pub open spec fn enable_interrupts(self, enable: bool) -> Machine {
        Machine { cpu: CpuView { ime: enable, ..self.cpu }, ..self }
    }

    /// `LD r,r'`.
    pub open spec fn load(self, to: Target, from: Target) -> Machine {
        self.with_target(to, self.target(from))
    }

    /// `LD r,d8`.
    pub open spec fn load_immediate(self, t: Target) -> Machine {
        let (value, m) = self.fetch_byte();
        m.with_target(t, value)
    }

    /// `LD rr,d16`.
    pub open spec fn load_wide(self, w: Wide) -> Machine {
        let (value, m) = self.fetch_word();
        m.with_wide(w, value)
    }

    /// `LD (BC),A`, `LD (DE),A`, `LD (HL+),A`, `LD (HL-),A`.
    pub open spec fn store_a(self, p: Pointer) -> Machine {
        self.store(self.pointer(p), self.regs().a).past_pointer(p)
    }

    /// `LD A,(BC)`, `LD A,(DE)`, `LD A,(HL+)`, `LD A,(HL-)`.
    pub open spec fn load_a(self, p: Pointer) -> Machine {
        self.with_regs(
            RegisterFile { a: self.bus.read(self.pointer(p)), ..self.regs() },
        ).past_pointer(p)
    }

    /// `LD (a16),SP`.
    pub open spec fn store_sp(self) -> Machine {
        let (addr, m) = self.fetch_word();
        Machine { bus: m.bus.write_word(addr, self.regs().sp), ..m }
    }

    /// `LD SP,HL`.
    pub open spec fn load_sp_hl(self) -> Machine {
        self.with_regs(RegisterFile { sp: self.regs().hl(), ..self.regs() })
    }

    /// `LD HL,SP+r8`.
    pub open spec fn load_hl_sp_offset(self) -> Machine {
        let (offset, m) = self.fetch_byte();
        let r = m.sp_offset(offset);
        m.with_regs(m.regs().with_hl(r.0)).with_flags(r.1)
    }

    /// `ADD SP,r8`.
    pub open spec fn add_sp(self) -> Machine {
        let (offset, m) = self.fetch_byte();
        let r = m.sp_offset(offset);
        m.with_regs(RegisterFile { sp: r.0, ..m.regs() }).with_flags(r.1)
    }

    /// `LDH (a8),A`: A goes to `0xFF00` plus the next byte.
    pub open spec fn store_high(self) -> Machine {
        let (offset, m) = self.fetch_byte();
        m.store(pair(0xff, offset), self.regs().a)
    }

    /// `LDH A,(a8)`: A comes from `0xFF00` plus the next byte.
    pub open spec fn load_high(self) -> Machine {
        let (offset, m) = self.fetch_byte();
        m.with_regs(RegisterFile { a: m.bus.read(pair(0xff, offset)), ..m.regs() })
    }

    /// `LD (C),A`: A goes to `0xFF00` plus C.
    pub open spec fn store_high_c(self) -> Machine {
        self.store(pair(0xff, self.regs().c), self.regs().a)
    }

    /// `LD A,(C)`: A comes from `0xFF00` plus C.
    pub open spec fn load_high_c(self) -> Machine {
        self.with_regs(
            RegisterFile { a: self.bus.read(pair(0xff, self.regs().c)), ..self.regs() },
        )
    }

    /// `LD (a16),A`.
    pub open spec fn store_abs(self) -> Machine {
        let (addr, m) = self.fetch_word();
        m.store(addr, self.regs().a)
    }

    /// `LD A,(a16)`.
    pub open spec fn load_abs(self) -> Machine {
        let (addr, m) = self.fetch_word();
        m.with_regs(RegisterFile { a: m.bus.read(addr), ..m.regs() })
    }

    /// `INC r`: Z and H from the sum, N cleared, C kept.
    pub open spec fn inc(self, t: Target) -> Machine {
        let r = spec_add8(self.target(t), 1);
        self.with_flags(
            Flags { zero: r.0 == 0, negative: false, half_carry: r.2, carry: self.regs().carry },
        ).with_target(t, r.0)
    }

    /// `DEC r`: Z and H from the difference, N set, C kept.
    pub open spec fn dec(self, t: Target) -> Machine {
        let r = spec_sub8(self.target(t), 1);
        self.with_flags(
            Flags { zero: r.0 == 0, negative: true, half_carry: r.2, carry: self.regs().carry },
        ).with_target(t, r.0)
    }

    /// `INC rr`: no flag changes.
    pub open spec fn inc_wide(self, w: Wide) -> Machine {
        self.with_wide(w, wrapping_add16(self.wide(w), 1))
    }

    /// `DEC rr`: no flag changes.
    pub open spec fn dec_wide(self, w: Wide) -> Machine {
        self.with_wide(w, wrapping_add16(self.wide(w), -1))
    }

    /// `ADD HL,rr`: Z kept, N cleared, H and C from bits 11 and 15.
    pub open spec fn add_hl(self, w: Wide) -> Machine {
        self.with_regs(self.regs().add_hl(self.wide(w)))
    }

    /// An arithmetic or logic operation on A and an operand.
    pub open spec fn alu_target(self, op: AluOp, t: Target) -> Machine {
        self.alu(op, self.target(t))
    }

    /// An arithmetic or logic operation on A and the next byte.
    pub open spec fn alu_immediate(self, op: AluOp) -> Machine {
        let (value, m) = self.fetch_byte();
        m.alu(op, value)
    }

    /// `RLCA`, `RRCA`, `RLA`, `RRA`.
    pub open spec fn rotate_accumulator(self, op: RotOp) -> Machine {
        self.rotate_a(op)
    }

    /// `DAA`.
    pub open spec fn decimal_adjust_a(self) -> Machine {
        self.decimal_adjust()
    }

    /// `CPL`: every bit of A is flipped; N and H are set.
    pub open spec fn complement(self) -> Machine {
        self.with_regs(
            RegisterFile { a: !self.regs().a, negative: true, half_carry: true, ..self.regs() },
        )
    }

    /// `SCF`: C is set; N and H are cleared.
    pub open spec fn set_carry(self) -> Machine {
        self.with_regs(
            RegisterFile { negative: false, half_carry: false, carry: true, ..self.regs() },
        )
    }

    /// `CCF`: C is flipped; N and H are cleared.
    pub open spec fn complement_carry(self) -> Machine {
        self.with_regs(
            RegisterFile {
                negative: false,
                half_carry: false,
                carry: !self.regs().carry,
                ..self.regs()
            },
        )
    }

    /// A relative jump: the signed byte after the opcode is added to the
    /// program counter past it, where the condition holds.
    pub open spec fn jump_relative(self, cond: Cond) -> Machine {
        let (offset, m) = self.fetch_byte();
        if self.holds(cond) {
            m.with_regs(m.regs().with_pc_advanced(spec_sext(offset)))
        } else {
            m
        }
    }

    /// An absolute jump, where the condition holds.
    pub open spec fn jump(self, cond: Cond) -> Machine {
        let (addr, m) = self.fetch_word();
        if self.holds(cond) {
            m.with_pc(addr)
        } else {
            m
        }
    }

    /// `JP (HL)`.
    pub open spec fn jump_hl(self) -> Machine {
        self.with_pc(self.regs().hl())
    }

    /// A call: the address past the instruction is pushed and the program
    /// counter set, where the condition holds.
    pub open spec fn call(self, cond: Cond) -> Machine {
        let (addr, m) = self.fetch_word();
        if self.holds(cond) {
            m.push(m.regs().pc).with_pc(addr)
        } else {
            m
        }
    }

    /// A return: the program counter is popped, where the condition holds.
    pub open spec fn ret(self, cond: Cond) -> Machine {
        if self.holds(cond) {
            let (addr, m) = self.pop();
            m.with_pc(addr)
        } else {
            self
        }
    }

    /// `RETI`: a return that sets the master enable.
    pub open spec fn return_from_interrupt(self) -> Machine {
        let (addr, m) = self.pop();
        Machine { cpu: CpuView { ime: true, ..m.with_pc(addr).cpu }, ..m }
    }

    /// `RST`: a call to a fixed address in the first page.
    pub open spec fn restart(self, addr: u8) -> Machine {
        self.push(self.regs().pc).with_pc(addr as u16)
    }

    /// `PUSH rr`.
    pub open spec fn push_pair(self, p: StackPair) -> Machine {
        self.push(self.stack_pair(p))
    }

    /// `POP rr`; the low nibble of F is dropped.
    pub open spec fn pop_pair(self, p: StackPair) -> Machine {
        let (value, m) = self.pop();
        m.with_stack_pair(p, value)
    }

    /// A rotate or shift of the second table: Z from the result, N and H
    /// cleared, C takes the ejected bit.
    pub open spec fn rotate_target(self, op: RotOp, t: Target) -> Machine {
        let r = spec_rotate(op, self.target(t), self.regs().carry);
        self.with_target(t, r.0).with_flags(
            Flags { zero: r.0 == 0, negative: false, half_carry: false, carry: r.1 },
        )
    }

    /// `BIT n,r`: Z is set where the bit is clear, N cleared, H set, C
    /// kept.
    pub open spec fn test_bit(self, n: u8, t: Target) -> Machine {
        self.with_flags(
            Flags {
                zero: !bit_of(self.target(t) as int, n as nat),
                negative: false,
                half_carry: true,
                carry: self.regs().carry,
            },
        )
    }

    /// `RES n,r`: the bit is cleared; no flag changes.
    pub open spec fn reset_bit(self, n: u8, t: Target) -> Machine {
        self.with_target(t, without_bit(self.target(t), n as nat))
    }

    /// `SET n,r`: the bit is set; no flag changes.
    pub open spec fn set_bit(self, n: u8, t: Target) -> Machine {
        self.with_target(t, with_bit(self.target(t), n as nat))
    }

    /// What an instruction of the second table does.
    pub open spec fn effect_cb(self, cb: CbInstr) -> Machine {
        match cb {
            CbInstr::Rot(op, t) => self.rotate_target(op, t),
            CbInstr::TestBit(n, t) => self.test_bit(n, t),
            CbInstr::ResetBit(n, t) => self.reset_bit(n, t),
            CbInstr::SetBit(n, t) => self.set_bit(n, t),
        }
    }

    /// The byte `0xCB`: the next byte is fetched and executed as an
    /// instruction of the second table.
    pub open spec fn prefixed(self) -> Machine {
        let (opcode, m) = self.fetch_byte();
        m.effect_cb(spec_decode_cb(opcode))
    }

    /// What an instruction does, its opcode already fetched.
    pub open spec fn effect(self, instr: Instr) -> Machine {
        match instr {
            Instr::Nop => self,
            Instr::Stop => self,
            Instr::Halt => self.halt(),
            Instr::Di => self.enable_interrupts(false),
            Instr::Ei => self.enable_interrupts(true),
            Instr::Ld(to, from) => self.load(to, from),
            Instr::LdImm(t) => self.load_immediate(t),
            Instr::LdWide(w) => self.load_wide(w),
            Instr::StoreA(p) => self.store_a(p),
            Instr::LoadA(p) => self.load_a(p),
            Instr::StoreSp => self.store_sp(),
            Instr::LdSpHl => self.load_sp_hl(),
            Instr::LdHlSpOffset => self.load_hl_sp_offset(),
            Instr::StoreHigh => self.store_high(),
            Instr::LoadHigh => self.load_high(),
            Instr::StoreHighC => self.store_high_c(),
            Instr::LoadHighC => self.load_high_c(),
            Instr::StoreAbs => self.store_abs(),
            Instr::LoadAbs => self.load_abs(),
            Instr::Inc(t) => self.inc(t),
            Instr::Dec(t) => self.dec(t),
            Instr::IncWide(w) => self.inc_wide(w),
            Instr::DecWide(w) => self.dec_wide(w),
            Instr::AddHl(w) => self.add_hl(w),
            Instr::AddSp => self.add_sp(),
            Instr::Alu(op, t) => self.alu_target(op, t),
            Instr::AluImm(op) => self.alu_immediate(op),
            Instr::Rlca => self.rotate_accumulator(RotOp::Rlc),
            Instr::Rrca => self.rotate_accumulator(RotOp::Rrc),
            Instr::Rla => self.rotate_accumulator(RotOp::Rl),
            Instr::Rra => self.rotate_accumulator(RotOp::Rr),
            Instr::Daa => self.decimal_adjust_a(),
            Instr::Cpl => self.complement(),
            Instr::Scf => self.set_carry(),
            Instr::Ccf => self.complement_carry(),
            Instr::Jr(cond) => self.jump_relative(cond),
            Instr::Jp(cond) => self.jump(cond),
            Instr::JpHl => self.jump_hl(),
            Instr::Call(cond) => self.call(cond),
            Instr::Ret(cond) => self.ret(cond),
            Instr::Reti => self.return_from_interrupt(),
            Instr::Rst(addr) => self.restart(addr),
            Instr::Push(p) => self.push_pair(p),
            Instr::Pop(p) => self.pop_pair(p),
            Instr::Prefix => self.prefixed(),
            Instr::Illegal => self,
        }
    }

    /// The cycles of an instruction of the second table, its prefix
    /// included: 8 on a register, 16 on the byte at HL, 12 for `BIT` there.
    pub open spec fn cost_cb(cb: CbInstr) -> u8 {
        match cb {
            CbInstr::Rot(_, t) => if t == Target::HlIndirect {
                16
            } else {
                8
            },
            CbInstr::TestBit(_, t) => if t == Target::HlIndirect {
                12
            } else {
                8
            },
            CbInstr::ResetBit(_, t) => if t == Target::HlIndirect {
                16
            } else {
                8
            },
            CbInstr::SetBit(_, t) => if t == Target::HlIndirect {
                16
            } else {
                8
            },
        }
    }

    /// The cycles that an instruction takes; for a conditional one they
    /// depend on whether its condition holds.  An illegal opcode takes
    /// none.
    pub open spec fn cost(self, instr: Instr) -> u8 {
        match instr {
            Instr::Nop | Instr::Stop | Instr::Halt | Instr::Di | Instr::Ei => 4,
            Instr::Ld(to, from) => if to == Target::HlIndirect || from == Target::HlIndirect {
                8
            } else {
                4
            },
            Instr::LdImm(t) => if t == Target::HlIndirect {
                12
            } else {
                8
            },
            Instr::LdWide(_) => 12,
            Instr::StoreA(_) | Instr::LoadA(_) => 8,
            Instr::StoreSp => 20,
            Instr::LdSpHl => 8,
            Instr::LdHlSpOffset => 12,
            Instr::StoreHigh | Instr::LoadHigh => 12,
            Instr::StoreHighC | Instr::LoadHighC => 8,
            Instr::StoreAbs | Instr::LoadAbs => 16,
            Instr::Inc(t) | Instr::Dec(t) => if t == Target::HlIndirect {
                12
            } else {
                4
            },
            Instr::IncWide(_) | Instr::DecWide(_) | Instr::AddHl(_) => 8,
            Instr::AddSp => 16,
            Instr::Alu(_, t) => if t == Target::HlIndirect {
                8
            } else {
                4
            },
            Instr::AluImm(_) => 8,
            Instr::Rlca | Instr::Rrca | Instr::Rla | Instr::Rra => 4,
            Instr::Daa | Instr::Cpl | Instr::Scf | Instr::Ccf => 4,
            Instr::Jr(cond) => if self.holds(cond) {
                12
            } else {
                8
            },
            Instr::Jp(cond) => if self.holds(cond) {
                16
            } else {
                12
            },
            Instr::JpHl => 4,
            Instr::Call(cond) => if self.holds(cond) {
                24
            } else {
                12
            },
            Instr::Ret(cond) => if cond == Cond::Always {
                16
            } else if self.holds(cond) {
                20
            } else {
                8
            },
            Instr::Reti => 16,
            Instr::Rst(_) => 16,
            Instr::Push(_) => 16,
            Instr::Pop(_) => 12,
            Instr::Prefix => Self::cost_cb(spec_decode_cb(self.bus.read(self.regs().pc))),
            Instr::Illegal => 0,
        }
    }

    /// The interrupts that are both requested and enabled.
    pub open spec fn pending(self) -> u8 {
        self.bus.irq & self.bus.interrupt_enable
    }

    /// The machine after the service of the pending interrupt of highest
    /// priority: the master enable and the request are cleared, the program
    /// counter is pushed and set to the source's vector.
    pub open spec fn service(self) -> Machine {
        let source = lowest_source(self.pending());
        let cleared = Machine {
            cpu: CpuView { ime: false, ..self.cpu },
            bus: MmuView { irq: without_bit(self.bus.irq, source), ..self.bus },
        };
        cleared.push(self.regs().pc).with_pc(vector_of(source))
    }

    /// Whether a step begins with the service of an interrupt.
    pub open spec fn services(self) -> bool {
        self.cpu.ime && self.pending() % 32 != 0
    }

    /// Whether the processor stays halted through a step.
    pub open spec fn sleeps(self) -> bool {
        self.cpu.halted && self.pending() == 0
    }

    /// The machine with the processor awake.
    pub open spec fn awake(self) -> Machine {
        Machine { cpu: CpuView { halted: false, ..self.cpu }, ..self }
    }

    /// The machine after one step.  A halted processor waits until an
    /// enabled interrupt is requested.  Otherwise a pending interrupt is
    /// served where the master enable allows it; else the instruction at
    /// the program counter is executed.
    pub open spec fn step(self) -> Machine {
        if self.sleeps() {
            self
        } else if self.services() {
            self.awake().service()
        } else {
            let (opcode, m) = self.awake().fetch_byte();
            m.effect(spec_decode(opcode))
        }
    }

    /// The cycles of one step, or the error where the byte at the program
    /// counter stands for no instruction.
    pub open spec fn step_result(self) -> Result<u8, CpuError> {
        if self.sleeps() {
            Ok(HALT_CYCLES)
        } else if self.services() {
            Ok(SERVICE_CYCLES)
        } else {
            let (opcode, m) = self.awake().fetch_byte();
            if spec_decode(opcode) == Instr::Illegal {
                Err(CpuError::InvalidOpcode { byte: opcode, pc: self.regs().pc })
            } else {
                Ok(m.cost(spec_decode(opcode)))
            }
        }
    }
}

/// The processor and the bus it drives, taken together.
pub open spec fn machine(cpu: CpuView, bus: MmuView) -> Machine {
    Machine { cpu, bus }
}

/// The SM83 processor.
pub struct Cpu {
    registers: Registers,
    ime: bool,
    halted: bool,
}

impl View for Cpu {
    type V = CpuView;

    closed spec fn view(&self) -> CpuView {
        CpuView { regs: self.registers@, ime: self.ime, halted: self.halted }
    }
}

impl Cpu {
    /// A processor at power-on: everything cleared, interrupts disabled.
    pub fn new() -> (r: Self)
        ensures
            r@ == (CpuView { regs: RegisterFile::zeroed(), ime: false, halted: false }),
    {
        Cpu { registers: Registers::new(), ime: false, halted: false }
    }

    /// A processor as the boot program leaves it.
    pub fn no_boot() -> (r: Self)
        ensures
            r@ == (CpuView { regs: RegisterFile::after_boot(), ime: false, halted: false }),
    {
        Cpu { registers: Registers::no_boot(), ime: false, halted: false }
    }

    /// A copy of the register file.
    pub fn registers(&self) -> (r: Registers)
        ensures
            r@ == self@.regs,
    {
        self.registers
    }

    /// Replaces the register file.
    pub fn set_registers(&mut self, registers: Registers)
        ensures
            final(self)@ == (CpuView { regs: registers@, ..old(self)@ }),
    {
        self.registers = registers;
    }

    /// The master enable of interrupts.
    pub fn ime(&self) -> (r: bool)
        ensures
            r == self@.ime,
    {
        self.ime
    }

    pub fn set_ime(&mut self, ime: bool)
        ensures
            final(self)@ == (CpuView { ime, ..old(self)@ }),
    {
        self.ime = ime;
    }

    /// Whether the processor waits for an interrupt.
    pub fn halted(&self) -> (r: bool)
        ensures
            r == self@.halted,
    {
        self.halted
    }

    /// Makes one step: waits while halted, serves a pending interrupt, or
    /// executes the instruction at the program counter.  Returns the
    /// cycles that passed.  Where the byte at the program counter stands
    /// for no instruction, the program counter moves past it, nothing
    /// else changes, and the byte and its address are returned as the
    /// error.
    pub fn step(&mut self, mmu: &mut Mmu) -> (r: Result<u8, CpuError>)
        ensures
            machine(final(self)@, final(mmu)@) == machine(old(self)@, old(mmu)@).step(),
            r == machine(old(self)@, old(mmu)@).step_result(),
            old(mmu)@.wf() ==> final(mmu)@.wf(),
            match r {
                Ok(cycles) => MIN_CYCLES <= cycles <= MAX_CYCLES,
                Err(_) => true,
            },
            final(self)@.regs.f() & 0x0f == 0,
    {
        proof {
            lemma_step_bounds(machine(self@, mmu@));
        }
        let requested = mmu.interrupt_flag();
        let pending = requested & mmu.interrupt_enable();
        let result = if self.halted && pending == 0 {
            Ok(HALT_CYCLES)
        } else {
            self.halted = false;
            if self.ime && pending % 32 != 0 {
                self.service_interrupt(requested, pending, mmu);
                Ok(SERVICE_CYCLES)
            } else {
                let pc = self.registers.pc();
                let opcode = self.fetch_byte(mmu);
                let instr = decode(opcode);
                let cycles = self.execute(instr, mmu);
                match instr {
                    Instr::Illegal => Err(CpuError::InvalidOpcode { byte: opcode, pc }),
                    _ => Ok(cycles),
                }
            }
        };
        proof {
            crate::registers::lemma_flag_register_shape(self@.regs);
        }
        result
    }

    /// Serves the pending interrupt of highest priority.
    fn service_interrupt(&mut self, requested: u8, pending: u8, mmu: &mut Mmu)
        requires
            requested == old(mmu)@.irq,
            pending == machine(old(self)@, old(mmu)@).pending(),
        ensures
            machine(final(self)@, final(mmu)@) == machine(old(self)@, old(mmu)@).service(),
            old(mmu)@.wf() ==> final(mmu)@.wf(),
    {
        let source: u8 = if bit(pending, 0) {
            0
        } else if bit(pending, 1) {
            1
        } else if bit(pending, 2) {
            2
        } else if bit(pending, 3) {
            3
        } else {
            4
        };
        self.ime = false;
        mmu.set_interrupt_flag(clear_bit(requested, source));
        let pc = self.registers.pc();
        self.push(pc, mmu);
        self.registers.set_pc(0x40 + 8 * source as u16);
    }

    /// Reads the byte at the program counter and moves past it.
    pub fn fetch_byte(&mut self, mmu: &Mmu) -> (r: u8)
        ensures
            (r, machine(final(self)@, mmu@)) == machine(old(self)@, mmu@).fetch_byte(),
    {
        let pc = self.registers.pc();
        self.registers.inc_pc(1);
        mmu.read_byte(pc)
    }

    /// Reads the word at the program counter and moves past it.
    pub fn fetch_word(&mut self, mmu: &Mmu) -> (r: u16)
        ensures
            (r, machine(final(self)@, mmu@)) == machine(old(self)@, mmu@).fetch_word(),
    {
        let pc = self.registers.pc();
        self.registers.inc_pc(2);
        mmu.read_word(pc)
    }

    /// Pushes a word: the stack pointer goes down by two, wrapping, and the
    /// word is stored where it then points.
    pub fn push(&mut self, value: u16, mmu: &mut Mmu)
        ensures
            machine(final(self)@, final(mmu)@) == machine(old(self)@, old(mmu)@).push(value),
            old(mmu)@.wf() ==> final(mmu)@.wf(),
    {
        let old_sp = self.registers.sp();
        let sp: u16 = if old_sp >= 2 { old_sp - 2 } else { old_sp + 0xfffe };
        mmu.write_word(sp, value);
        self.registers.set_sp(sp);
    }

    /// Pops a word: reads it where the stack pointer points and moves the
    /// stack pointer up by two, wrapping.
    pub fn pop(&mut self, mmu: &Mmu) -> (r: u16)
        ensures
            (r, machine(final(self)@, mmu@)) == machine(old(self)@, mmu@).pop(),
    {
        let sp = self.registers.sp();
        let value = mmu.read_word(sp);
        self.registers.set_sp(if sp >= 0xfffe { sp - 0xfffe } else { sp + 2 });
        value
    }

    fn read_target(&self, t: Target, mmu: &Mmu) -> (r: u8)
        ensures
            r == machine(self@, mmu@).target(t),
    {
        match t {
            Target::B => self.registers.b(),
            Target::C => self.registers.c(),
            Target::D => self.registers.d(),
            Target::E => self.registers.e(),
            Target::H => self.registers.h(),
            Target::L => self.registers.l(),
            Target::A => self.registers.a(),
            Target::HlIndirect => mmu.read_byte(self.registers.hl()),
        }
    }

    fn write_target(&mut self, t: Target, value: u8, mmu: &mut Mmu)
        ensures
            machine(final(self)@, final(mmu)@) == machine(old(self)@, old(mmu)@).with_target(
                t,
                value,
            ),
            old(mmu)@.wf() ==> final(mmu)@.wf(),
    {
        match t {
            Target::B => self.registers.set_b(value),
            Target::C => self.registers.set_c(value),
            Target::D => self.registers.set_d(value),
            Target::E => self.registers.set_e(value),
            Target::H => self.registers.set_h(value),
            Target::L => self.registers.set_l(value),
            Target::A => self.registers.set_a(value),
            Target::HlIndirect => mmu.write_byte(self.registers.hl(), value),
        }
    }

    fn read_wide(&self, w: Wide) -> (r: u16)
        ensures
            r == self@.regs.wide(w),
    {
        match w {
            Wide::BC => self.registers.bc(),
            Wide::DE => self.registers.de(),
            Wide::HL => self.registers.hl(),
            Wide::SP => self.registers.sp(),
        }
    }

    fn write_wide(&mut self, w: Wide, value: u16)
        ensures
            final(self)@ == old(self)@.with_regs(old(self)@.regs.with_wide(w, value)),
    {
        match w {
            Wide::BC => self.registers.set_bc(value),
            Wide::DE => self.registers.set_de(value),
            Wide::HL => self.registers.set_hl(value),
            Wide::SP => self.registers.set_sp(value),
        }
    }

    fn read_stack_pair(&self, p: StackPair) -> (r: u16)
        ensures
            r == self@.regs.stack_pair(p),
    {
        match p {
            StackPair::BC => self.registers.bc(),
            StackPair::DE => self.registers.de(),
            StackPair::HL => self.registers.hl(),
            StackPair::AF => self.registers.af(),
        }
    }

    fn write_stack_pair(&mut self, p: StackPair, value: u16)
        ensures
            final(self)@ == old(self)@.with_regs(old(self)@.regs.with_stack_pair(p, value)),
    {
        match p {
            StackPair::BC => self.registers.set_bc(value),
            StackPair::DE => self.registers.set_de(value),
            StackPair::HL => self.registers.set_hl(value),
            StackPair::AF => self.registers.set_af(value),
        }
    }

    /// The address that a pointer stands for.
    fn pointer(&self, p: Pointer) -> (r: u16)
        ensures
            r == self@.regs.pointer(p),
    {
        match p {
            Pointer::BC => self.registers.bc(),
            Pointer::DE => self.registers.de(),
            Pointer::HlIncrement => self.registers.hl(),
            Pointer::HlDecrement => self.registers.hl(),
        }
    }

    /// Moves HL on or back where the pointer says so.
    fn past_pointer(&mut self, p: Pointer)
        ensures
            final(self)@ == old(self)@.with_regs(old(self)@.regs.past_pointer(p)),
    {
        match p {
            Pointer::BC => {},
            Pointer::DE => {},
            Pointer::HlIncrement => {
                let hl = self.registers.hl();
                self.registers.set_hl(if hl == 0xffff { 0 } else { hl + 1 });
            },
            Pointer::HlDecrement => {
                let hl = self.registers.hl();
                self.registers.set_hl(if hl == 0 { 0xffff } else { hl - 1 });
            },
        }
    }

    /// Whether a condition holds of the flags.
    fn holds(&self, cond: Cond) -> (r: bool)
        ensures
            r == self@.regs.holds(cond),
    {
        match cond {
            Cond::Always => true,
            Cond::NotZero => !self.registers.zero_flag(),
            Cond::Zero => self.registers.zero_flag(),
            Cond::NotCarry => !self.registers.carry_flag(),
            Cond::Carry => self.registers.carry_flag(),
        }
    }

    fn set_flags(&mut self, flags: Flags)
        ensures
            final(self)@ == old(self)@.with_regs(old(self)@.regs.flagged(flags)),
    {
        self.registers.set_flags(flags.zero, flags.negative, flags.half_carry, flags.carry);
    }

    /// One more than `val`, with the flags of `INC`.
    pub fn inc_8bit(&mut self, val: u8) -> (res: u8)
        ensures
            res == spec_add8(val, 1).0,
            final(self)@ == (CpuView {
                regs: old(self)@.regs.with_flags(
                    res == 0,
                    false,
                    spec_add8(val, 1).2,
                    old(self)@.regs.carry,
                ),
                ..old(self)@
            }),
    {
        let (res, _, half_carry) = crate::alu::add2_8bit(val, 1);
        self.registers.set_half_carry_flag(half_carry);
        self.registers.set_zero_flag(res == 0);
        self.registers.set_negative_flag(false);
        res
    }

    /// One less than `val`, with the flags of `DEC`.
    pub fn dec_8bit(&mut self, val: u8) -> (res: u8)
        ensures
            res == spec_sub8(val, 1).0,
            final(self)@ == (CpuView {
                regs: old(self)@.regs.with_flags(
                    res == 0,
                    true,
                    spec_sub8(val, 1).2,
                    old(self)@.regs.carry,
                ),
                ..old(self)@
            }),
    {
        let (res, _, half_carry) = crate::alu::sub2_8bit(val, 1);
        self.registers.set_half_carry_flag(half_carry);
        self.registers.set_zero_flag(res == 0);
        self.registers.set_negative_flag(true);
        res
    }

    /// SP moved by a signed byte, with the flags of `ADD SP,r8`.
    fn sp_offset(&self, offset: u8) -> (r: (u16, Flags))
        ensures
            r == self@.regs.sp_offset(offset),
    {
        let sp = self.registers.sp();
        let (res, _, _) = crate::alu::add2_16bit(sp, signed_byte_to_u16(offset));
        let (_, carry, half_carry) = crate::alu::add2_8bit((sp % 256) as u8, offset);
        (res, Flags { zero: false, negative: false, half_carry, carry })
    }

    /// Applies an arithmetic or logic operation to A and `value`.
    fn alu(&mut self, op: AluOp, value: u8)
        ensures
            final(self)@ == old(self)@.with_regs(old(self)@.regs.alu(op, value)),
    {
        let (res, flags) = apply(op, self.registers.a(), value, self.registers.carry_flag());
        self.registers.set_a(res);
        self.set_flags(flags);
    }

    /// Rotates A and clears Z.
    fn rotate_a(&mut self, op: RotOp)
        ensures
            final(self)@ == old(self)@.with_regs(old(self)@.regs.rotate_a(op)),
    {
        let (res, carry) = rotate(op, self.registers.a(), self.registers.carry_flag());
        self.registers.set_a(res);
        self.set_flags(Flags { zero: false, negative: false, half_carry: false, carry });
    }

    /// `HALT`: the processor waits for an interrupt.
    fn halt(&mut self, mmu: &Mmu)
        ensures
            machine(final(self)@, mmu@) == machine(old(self)@, mmu@).halt(),
    {
        self.halted = true;
    }

    /// `EI` and `DI`: the master enable is set or cleared at once.
    fn enable_interrupts(&mut self, enable: bool, mmu: &Mmu)
        ensures
            machine(final(self)@, mmu@) == machine(old(self)@, mmu@).enable_interrupts(enable),
    {
        self.ime = enable;
    }

    /// `LD r,r'`.
    fn load(&mut self, to: Target, from: Target, mmu: &mut Mmu)
        ensures
            machine(final(self)@, final(mmu)@) == machine(old(self)@, old(mmu)@).load(to, from),
            old(mmu)@.wf() ==> final(mmu)@.wf(),
    {
        let value = self.read_target(from, mmu);
        self.write_target(to, value, mmu);
    }

    /// `LD r,d8`.
    fn load_immediate(&mut self, t: Target, mmu: &mut Mmu)
        ensures
            machine(final(self)@, final(mmu)@) == machine(old(self)@, old(mmu)@).load_immediate(t),
            old(mmu)@.wf() ==> final(mmu)@.wf(),
    {
        let value = self.fetch_byte(mmu);
        self.write_target(t, value, mmu);
    }

    /// `LD rr,d16`.
    fn load_wide(&mut self, w: Wide, mmu: &Mmu)
        ensures
            machine(final(self)@, mmu@) == machine(old(self)@, mmu@).load_wide(w),
    {
        let value = self.fetch_word(mmu);
        self.write_wide(w, value);
    }

    /// `LD (BC),A`, `LD (DE),A`, `LD (HL+),A`, `LD (HL-),A`.
    fn store_a(&mut self, p: Pointer, mmu: &mut Mmu)
        ensures
            machine(final(self)@, final(mmu)@) == machine(old(self)@, old(mmu)@).store_a(p),
            old(mmu)@.wf() ==> final(mmu)@.wf(),
    {
        let addr = self.pointer(p);
        mmu.write_byte(addr, self.registers.a());
        self.past_pointer(p);
    }

    /// `LD A,(BC)`, `LD A,(DE)`, `LD A,(HL+)`, `LD A,(HL-)`.
    fn load_a(&mut self, p: Pointer, mmu: &Mmu)
        ensures
            machine(final(self)@, mmu@) == machine(old(self)@, mmu@).load_a(p),
    {
        let addr = self.pointer(p);
        let value = mmu.read_byte(addr);
        self.registers.set_a(value);
        self.past_pointer(p);
    }

    /// `LD (a16),SP`.
    fn store_sp(&mut self, mmu: &mut Mmu)
        ensures
            machine(final(self)@, final(mmu)@) == machine(old(self)@, old(mmu)@).store_sp(),
            old(mmu)@.wf() ==> final(mmu)@.wf(),
    {
        let addr = self.fetch_word(mmu);
        mmu.write_word(addr, self.registers.sp());
    }

    /// `LD SP,HL`.
    fn load_sp_hl(&mut self, mmu: &Mmu)
        ensures
            machine(final(self)@, mmu@) == machine(old(self)@, mmu@).load_sp_hl(),
    {
        let hl = self.registers.hl();
        self.registers.set_sp(hl);
    }

    /// `LD HL,SP+r8`.
    fn load_hl_sp_offset(&mut self, mmu: &Mmu)
        ensures
            machine(final(self)@, mmu@) == machine(old(self)@, mmu@).load_hl_sp_offset(),
    {
        let offset = self.fetch_byte(mmu);
        let (res, flags) = self.sp_offset(offset);
        self.registers.set_hl(res);
        self.set_flags(flags);
    }

    /// `ADD SP,r8`.
    fn add_sp(&mut self, mmu: &Mmu)
        ensures
            machine(final(self)@, mmu@) == machine(old(self)@, mmu@).add_sp(),
    {
        let offset = self.fetch_byte(mmu);
        let (res, flags) = self.sp_offset(offset);
        self.registers.set_sp(res);
        self.set_flags(flags);
    }

    /// `LDH (a8),A`: A goes to `0xFF00` plus the next byte.
    fn store_high(&mut self, mmu: &mut Mmu)
        ensures
            machine(final(self)@, final(mmu)@) == machine(old(self)@, old(mmu)@).store_high(),
            old(mmu)@.wf() ==> final(mmu)@.wf(),
    {
        let offset = self.fetch_byte(mmu);
        mmu.write_byte(0xff00 + offset as u16, self.registers.a());
    }

    /// `LDH A,(a8)`: A comes from `0xFF00` plus the next byte.
    fn load_high(&mut self, mmu: &Mmu)
        ensures
            machine(final(self)@, mmu@) == machine(old(self)@, mmu@).load_high(),
    {
        let offset = self.fetch_byte(mmu);
        let value = mmu.read_byte(0xff00 + offset as u16);
        self.registers.set_a(value);
    }

    /// `LD (C),A`: A goes to `0xFF00` plus C.
    fn store_high_c(&mut self, mmu: &mut Mmu)
        ensures
            machine(final(self)@, final(mmu)@) == machine(old(self)@, old(mmu)@).store_high_c(),
            old(mmu)@.wf() ==> final(mmu)@.wf(),
    {
        mmu.write_byte(0xff00 + self.registers.c() as u16, self.registers.a());
    }

    /// `LD A,(C)`: A comes from `0xFF00` plus C.
    fn load_high_c(&mut self, mmu: &Mmu)
        ensures
            machine(final(self)@, mmu@) == machine(old(self)@, mmu@).load_high_c(),
    {
        let value = mmu.read_byte(0xff00 + self.registers.c() as u16);
        self.registers.set_a(value);
    }

    /// `LD (a16),A`.
    fn store_abs(&mut self, mmu: &mut Mmu)
        ensures
            machine(final(self)@, final(mmu)@) == machine(old(self)@, old(mmu)@).store_abs(),
            old(mmu)@.wf() ==> final(mmu)@.wf(),
    {
        let addr = self.fetch_word(mmu);
        mmu.write_byte(addr, self.registers.a());
    }

    /// `LD A,(a16)`.
    fn load_abs(&mut self, mmu: &Mmu)
        ensures
            machine(final(self)@, mmu@) == machine(old(self)@, mmu@).load_abs(),
    {
        let addr = self.fetch_word(mmu);
        let value = mmu.read_byte(addr);
        self.registers.set_a(value);
    }

    /// `INC r`: Z and H from the sum, N cleared, C kept.
    fn inc(&mut self, t: Target, mmu: &mut Mmu)
        ensures
            machine(final(self)@, final(mmu)@) == machine(old(self)@, old(mmu)@).inc(t),
            old(mmu)@.wf() ==> final(mmu)@.wf(),
    {
        let value = self.read_target(t, mmu);
        let res = self.inc_8bit(value);
        self.write_target(t, res, mmu);
    }

    /// `DEC r`: Z and H from the difference, N set, C kept.
    fn dec(&mut self, t: Target, mmu: &mut Mmu)
        ensures
            machine(final(self)@, final(mmu)@) == machine(old(self)@, old(mmu)@).dec(t),
            old(mmu)@.wf() ==> final(mmu)@.wf(),
    {
        let value = self.read_target(t, mmu);
        let res = self.dec_8bit(value);
        self.write_target(t, res, mmu);
    }

    /// `INC rr`: no flag changes.
    fn inc_wide(&mut self, w: Wide, mmu: &Mmu)
        ensures
            machine(final(self)@, mmu@) == machine(old(self)@, mmu@).inc_wide(w),
    {
        let value = self.read_wide(w);
        self.write_wide(w, if value == 0xffff { 0 } else { value + 1 });
    }

    /// `DEC rr`: no flag changes.
    fn dec_wide(&mut self, w: Wide, mmu: &Mmu)
        ensures
            machine(final(self)@, mmu@) == machine(old(self)@, mmu@).dec_wide(w),
    {
        let value = self.read_wide(w);
        self.write_wide(w, if value == 0 { 0xffff } else { value - 1 });
    }

    /// `ADD HL,rr`: Z kept, N cleared, H and C from bits 11 and 15.
    fn add_hl(&mut self, w: Wide, mmu: &Mmu)
        ensures
            machine(final(self)@, mmu@) == machine(old(self)@, mmu@).add_hl(w),
    {
        let hl = self.registers.hl();
        let value = self.read_wide(w);
        let (res, carry, half_carry) = crate::alu::add2_16bit(hl, value);
        let zero = self.registers.zero_flag();
        self.registers.set_hl(res);
        self.registers.set_flags(zero, false, half_carry, carry);
    }

    /// An arithmetic or logic operation on A and an operand.
    fn alu_target(&mut self, op: AluOp, t: Target, mmu: &Mmu)
        ensures
            machine(final(self)@, mmu@) == machine(old(self)@, mmu@).alu_target(op, t),
    {
        let value = self.read_target(t, mmu);
        self.alu(op, value);
    }

    /// An arithmetic or logic operation on A and the next byte.
    fn alu_immediate(&mut self, op: AluOp, mmu: &Mmu)
        ensures
            machine(final(self)@, mmu@) == machine(old(self)@, mmu@).alu_immediate(op),
    {
        let value = self.fetch_byte(mmu);
        self.alu(op, value);
    }

    /// `RLCA`, `RRCA`, `RLA`, `RRA`.
    fn rotate_accumulator(&mut self, op: RotOp, mmu: &Mmu)
        ensures
            machine(final(self)@, mmu@) == machine(old(self)@, mmu@).rotate_accumulator(op),
    {
        self.rotate_a(op);
    }

    /// `DAA`.
    fn decimal_adjust_a(&mut self, mmu: &Mmu)
        ensures
            machine(final(self)@, mmu@) == machine(old(self)@, mmu@).decimal_adjust_a(),
    {
        let (res, carry) = daa(
            self.registers.a(),
            self.registers.negative_flag(),
            self.registers.half_carry_flag(),
            self.registers.carry_flag(),
        );
        let negative = self.registers.negative_flag();
        self.registers.set_a(res);
        self.registers.set_flags(res == 0, negative, false, carry);
    }

    /// `CPL`: every bit of A is flipped; N and H are set.
    fn complement(&mut self, mmu: &Mmu)
        ensures
            machine(final(self)@, mmu@) == machine(old(self)@, mmu@).complement(),
    {
        let a = self.registers.a();
        self.registers.set_a(!a);
        self.registers.set_negative_flag(true);
        self.registers.set_half_carry_flag(true);
    }

    /// `SCF`: C is set; N and H are cleared.
    fn set_carry(&mut self, mmu: &Mmu)
        ensures
            machine(final(self)@, mmu@) == machine(old(self)@, mmu@).set_carry(),
    {
        self.registers.set_negative_flag(false);
        self.registers.set_half_carry_flag(false);
        self.registers.set_carry_flag(true);
    }

    /// `CCF`: C is flipped; N and H are cleared.
    fn complement_carry(&mut self, mmu: &Mmu)
        ensures
            machine(final(self)@, mmu@) == machine(old(self)@, mmu@).complement_carry(),
    {
        let carry = self.registers.carry_flag();
        self.registers.set_negative_flag(false);
        self.registers.set_half_carry_flag(false);
        self.registers.set_carry_flag(!carry);
    }

    /// A relative jump: the signed byte after the opcode is added to the
    /// program counter past it, where the condition holds.
    fn jump_relative(&mut self, cond: Cond, mmu: &Mmu)
        ensures
            machine(final(self)@, mmu@) == machine(old(self)@, mmu@).jump_relative(cond),
    {
        let jump = signed_byte_to_u16(self.fetch_byte(mmu));
        if self.holds(cond) {
            self.registers.inc_pc(jump);
        }
    }

    /// An absolute jump, where the condition holds.
    fn jump(&mut self, cond: Cond, mmu: &Mmu)
        ensures
            machine(final(self)@, mmu@) == machine(old(self)@, mmu@).jump(cond),
    {
        let addr = self.fetch_word(mmu);
        if self.holds(cond) {
            self.registers.set_pc(addr);
        }
    }

    /// `JP (HL)`.
    fn jump_hl(&mut self, mmu: &Mmu)
        ensures
            machine(final(self)@, mmu@) == machine(old(self)@, mmu@).jump_hl(),
    {
        let hl = self.registers.hl();
        self.registers.set_pc(hl);
    }

    /// A call: the address past the instruction is pushed and the program
    /// counter set, where the condition holds.
    fn call(&mut self, cond: Cond, mmu: &mut Mmu)
        ensures
            machine(final(self)@, final(mmu)@) == machine(old(self)@, old(mmu)@).call(cond),
            old(mmu)@.wf() ==> final(mmu)@.wf(),
    {
        let addr = self.fetch_word(mmu);
        if self.holds(cond) {
            let pc = self.registers.pc();
            self.push(pc, mmu);
            self.registers.set_pc(addr);
        }
    }

    /// A return: the program counter is popped, where the condition holds.
    fn ret(&mut self, cond: Cond, mmu: &Mmu)
        ensures
            machine(final(self)@, mmu@) == machine(old(self)@, mmu@).ret(cond),
    {
        if self.holds(cond) {
            let pc = self.pop(mmu);
            self.registers.set_pc(pc);
        }
    }

    /// `RETI`: a return that sets the master enable.
    fn return_from_interrupt(&mut self, mmu: &Mmu)
        ensures
            machine(final(self)@, mmu@) == machine(old(self)@, mmu@).return_from_interrupt(),
    {
        let pc = self.pop(mmu);
        self.registers.set_pc(pc);
        self.ime = true;
    }

    /// `RST`: a call to a fixed address in the first page.
    fn restart(&mut self, addr: u8, mmu: &mut Mmu)
        ensures
            machine(final(self)@, final(mmu)@) == machine(old(self)@, old(mmu)@).restart(addr),
            old(mmu)@.wf() ==> final(mmu)@.wf(),
    {
        let pc = self.registers.pc();
        self.push(pc, mmu);
        self.registers.set_pc(addr as u16);
    }

    /// `PUSH rr`.
    fn push_pair(&mut self, p: StackPair, mmu: &mut Mmu)
        ensures
            machine(final(self)@, final(mmu)@) == machine(old(self)@, old(mmu)@).push_pair(p),
            old(mmu)@.wf() ==> final(mmu)@.wf(),
    {
        let value = self.read_stack_pair(p);
        self.push(value, mmu);
    }

    /// `POP rr`; the low nibble of F is dropped.
    fn pop_pair(&mut self, p: StackPair, mmu: &Mmu)
        ensures
            machine(final(self)@, mmu@) == machine(old(self)@, mmu@).pop_pair(p),
    {
        let value = self.pop(mmu);
        self.write_stack_pair(p, value);
    }

    /// A rotate or shift of the second table: Z from the result, N and H
    /// cleared, C takes the ejected bit.
    fn rotate_target(&mut self, op: RotOp, t: Target, mmu: &mut Mmu)
        ensures
            machine(final(self)@, final(mmu)@) == machine(old(self)@, old(mmu)@).rotate_target(op, t),
            old(mmu)@.wf() ==> final(mmu)@.wf(),
    {
        let value = self.read_target(t, mmu);
        let (res, carry) = rotate(op, value, self.registers.carry_flag());
        self.write_target(t, res, mmu);
        self.set_flags(Flags { zero: res == 0, negative: false, half_carry: false, carry });
    }

    /// `BIT n,r`: Z is set where the bit is clear, N cleared, H set, C
    /// kept.
    fn test_bit(&mut self, n: u8, t: Target, mmu: &Mmu)
        requires
            n < 8,
        ensures
            machine(final(self)@, mmu@) == machine(old(self)@, mmu@).test_bit(n, t),
    {
        let value = self.read_target(t, mmu);
        let carry = self.registers.carry_flag();
        self.set_flags(Flags { zero: !bit(value, n), negative: false, half_carry: true, carry });
    }

    /// `RES n,r`: the bit is cleared; no flag changes.
    fn reset_bit(&mut self, n: u8, t: Target, mmu: &mut Mmu)
        requires
            n < 8,
        ensures
            machine(final(self)@, final(mmu)@) == machine(old(self)@, old(mmu)@).reset_bit(n, t),
            old(mmu)@.wf() ==> final(mmu)@.wf(),
    {
        let value = self.read_target(t, mmu);
        self.write_target(t, clear_bit(value, n), mmu);
    }

    /// `SET n,r`: the bit is set; no flag changes.
    fn set_bit(&mut self, n: u8, t: Target, mmu: &mut Mmu)
        requires
            n < 8,
        ensures
            machine(final(self)@, final(mmu)@) == machine(old(self)@, old(mmu)@).set_bit(n, t),
            old(mmu)@.wf() ==> final(mmu)@.wf(),
    {
        let value = self.read_target(t, mmu);
        self.write_target(t, set_bit(value, n), mmu);
    }

    /// Executes an instruction of the second table and returns its cycles,
    /// the prefix included.
    fn execute_cb(&mut self, cb: CbInstr, mmu: &mut Mmu) -> (cycles: u8)
        requires
            match cb {
                CbInstr::Rot(_, _) => true,
                CbInstr::TestBit(n, _) => n < 8,
                CbInstr::ResetBit(n, _) => n < 8,
                CbInstr::SetBit(n, _) => n < 8,
            },
        ensures
            machine(final(self)@, final(mmu)@) == machine(old(self)@, old(mmu)@).effect_cb(cb),
            cycles == Machine::cost_cb(cb),
            old(mmu)@.wf() ==> final(mmu)@.wf(),
    {
        match cb {
            CbInstr::Rot(op, t) => {
                self.rotate_target(op, t, mmu);
                match t {
                    Target::HlIndirect => 16,
                    _ => 8,
                }
            },
            CbInstr::TestBit(n, t) => {
                self.test_bit(n, t, mmu);
                match t {
                    Target::HlIndirect => 12,
                    _ => 8,
                }
            },
            CbInstr::ResetBit(n, t) => {
                self.reset_bit(n, t, mmu);
                match t {
                    Target::HlIndirect => 16,
                    _ => 8,
                }
            },
            CbInstr::SetBit(n, t) => {
                self.set_bit(n, t, mmu);
                match t {
                    Target::HlIndirect => 16,
                    _ => 8,
                }
            },
        }
    }

    /// Executes an instruction that steers the processor itself, or one of
    /// the second table.
    fn execute_control(&mut self, instr: Instr, mmu: &mut Mmu) -> (cycles: u8)
        requires
            is_control(instr),
        ensures
            machine(final(self)@, final(mmu)@) == machine(old(self)@, old(mmu)@).effect(instr),
            cycles == machine(old(self)@, old(mmu)@).cost(instr),
            old(mmu)@.wf() ==> final(mmu)@.wf(),
    {
        match instr {
            Instr::Nop => 4,
            Instr::Stop => 4,
            Instr::Halt => {
                self.halt(mmu);
                4
            },
            Instr::Di => {
                self.enable_interrupts(false, mmu);
                4
            },
            Instr::Ei => {
                self.enable_interrupts(true, mmu);
                4
            },
            Instr::Prefix => {
                let opcode = self.fetch_byte(mmu);
                self.execute_cb(decode_cb(opcode), mmu)
            },
            Instr::Illegal => 0,
            _ => 0,
        }
    }

    /// Executes a load or a store.
    fn execute_load(&mut self, instr: Instr, mmu: &mut Mmu) -> (cycles: u8)
        requires
            is_load(instr),
        ensures
            machine(final(self)@, final(mmu)@) == machine(old(self)@, old(mmu)@).effect(instr),
            cycles == machine(old(self)@, old(mmu)@).cost(instr),
            old(mmu)@.wf() ==> final(mmu)@.wf(),
    {
        match instr {
            Instr::Ld(to, from) => {
                self.load(to, from, mmu);
                match (to, from) {
                    (Target::HlIndirect, _) => 8,
                    (_, Target::HlIndirect) => 8,
                    _ => 4,
                }
            },
            Instr::LdImm(t) => {
                self.load_immediate(t, mmu);
                match t {
                    Target::HlIndirect => 12,
                    _ => 8,
                }
            },
            Instr::LdWide(w) => {
                self.load_wide(w, mmu);
                12
            },
            Instr::StoreA(p) => {
                self.store_a(p, mmu);
                8
            },
            Instr::LoadA(p) => {
                self.load_a(p, mmu);
                8
            },
            Instr::StoreSp => {
                self.store_sp(mmu);
                20
            },
            Instr::LdSpHl => {
                self.load_sp_hl(mmu);
                8
            },
            Instr::LdHlSpOffset => {
                self.load_hl_sp_offset(mmu);
                12
            },
            Instr::StoreHigh => {
                self.store_high(mmu);
                12
            },
            Instr::LoadHigh => {
                self.load_high(mmu);
                12
            },
            Instr::StoreHighC => {
                self.store_high_c(mmu);
                8
            },
            Instr::LoadHighC => {
                self.load_high_c(mmu);
                8
            },
            Instr::StoreAbs => {
                self.store_abs(mmu);
                16
            },
            Instr::LoadAbs => {
                self.load_abs(mmu);
                16
            },
            _ => 0,
        }
    }

    /// Executes an arithmetic or logic instruction.
    fn execute_arithmetic(&mut self, instr: Instr, mmu: &mut Mmu) -> (cycles: u8)
        requires
            is_arithmetic(instr),
        ensures
            machine(final(self)@, final(mmu)@) == machine(old(self)@, old(mmu)@).effect(instr),
            cycles == machine(old(self)@, old(mmu)@).cost(instr),
            old(mmu)@.wf() ==> final(mmu)@.wf(),
    {
        match instr {
            Instr::Inc(t) => {
                self.inc(t, mmu);
                match t {
                    Target::HlIndirect => 12,
                    _ => 4,
                }
            },
            Instr::Dec(t) => {
                self.dec(t, mmu);
                match t {
                    Target::HlIndirect => 12,
                    _ => 4,
                }
            },
            Instr::IncWide(w) => {
                self.inc_wide(w, mmu);
                8
            },
            Instr::DecWide(w) => {
                self.dec_wide(w, mmu);
                8
            },
            Instr::AddHl(w) => {
                self.add_hl(w, mmu);
                8
            },
            Instr::AddSp => {
                self.add_sp(mmu);
                16
            },
            Instr::Alu(op, t) => {
                self.alu_target(op, t, mmu);
                match t {
                    Target::HlIndirect => 8,
                    _ => 4,
                }
            },
            Instr::AluImm(op) => {
                self.alu_immediate(op, mmu);
                8
            },
            Instr::Rlca => {
                self.rotate_accumulator(RotOp::Rlc, mmu);
                4
            },
            Instr::Rrca => {
                self.rotate_accumulator(RotOp::Rrc, mmu);
                4
            },
            Instr::Rla => {
                self.rotate_accumulator(RotOp::Rl, mmu);
                4
            },
            Instr::Rra => {
                self.rotate_accumulator(RotOp::Rr, mmu);
                4
            },
            Instr::Daa => {
                self.decimal_adjust_a(mmu);
                4
            },
            Instr::Cpl => {
                self.complement(mmu);
                4
            },
            Instr::Scf => {
                self.set_carry(mmu);
                4
            },
            Instr::Ccf => {
                self.complement_carry(mmu);
                4
            },
            _ => 0,
        }
    }

    /// Executes a jump, a call, a return or a stack instruction.
    fn execute_flow(&mut self, instr: Instr, mmu: &mut Mmu) -> (cycles: u8)
        requires
            is_flow(instr),
        ensures
            machine(final(self)@, final(mmu)@) == machine(old(self)@, old(mmu)@).effect(instr),
            cycles == machine(old(self)@, old(mmu)@).cost(instr),
            old(mmu)@.wf() ==> final(mmu)@.wf(),
    {
        match instr {
            Instr::Jr(cond) => {
                let taken = self.holds(cond);
                self.jump_relative(cond, mmu);
                if taken {
                    12
                } else {
                    8
                }
            },
            Instr::Jp(cond) => {
                let taken = self.holds(cond);
                self.jump(cond, mmu);
                if taken {
                    16
                } else {
                    12
                }
            },
            Instr::JpHl => {
                self.jump_hl(mmu);
                4
            },
            Instr::Call(cond) => {
                let taken = self.holds(cond);
                self.call(cond, mmu);
                if taken {
                    24
                } else {
                    12
                }
            },
            Instr::Ret(cond) => {
                let taken = self.holds(cond);
                self.ret(cond, mmu);
                match cond {
                    Cond::Always => 16,
                    _ => if taken {
                        20
                    } else {
                        8
                    },
                }
            },
            Instr::Reti => {
                self.return_from_interrupt(mmu);
                16
            },
            Instr::Rst(addr) => {
                self.restart(addr, mmu);
                16
            },
            Instr::Push(p) => {
                self.push_pair(p, mmu);
                16
            },
            Instr::Pop(p) => {
                self.pop_pair(p, mmu);
                12
            },
            _ => 0,
        }
    }

    /// Executes an instruction whose opcode has been fetched and returns
    /// its cycles; an illegal one does nothing and takes none.
    pub fn execute(&mut self, instr: Instr, mmu: &mut Mmu) -> (cycles: u8)
        ensures
            machine(final(self)@, final(mmu)@) == machine(old(self)@, old(mmu)@).effect(instr),
            cycles == machine(old(self)@, old(mmu)@).cost(instr),
            old(mmu)@.wf() ==> final(mmu)@.wf(),
    {
        match instr {
            Instr::Nop | Instr::Stop | Instr::Halt | Instr::Di | Instr::Ei | Instr::Prefix | Instr::Illegal => self.execute_control(instr, mmu),
            Instr::Ld(_, _) | Instr::LdImm(_) | Instr::LdWide(_) | Instr::StoreA(_) | Instr::LoadA(_) | Instr::StoreSp | Instr::LdSpHl | Instr::LdHlSpOffset | Instr::StoreHigh | Instr::LoadHigh | Instr::StoreHighC | Instr::LoadHighC | Instr::StoreAbs | Instr::LoadAbs => self.execute_load(instr, mmu),
            Instr::Inc(_) | Instr::Dec(_) | Instr::IncWide(_) | Instr::DecWide(_) | Instr::AddHl(_) | Instr::AddSp | Instr::Alu(_, _) | Instr::AluImm(_) | Instr::Rlca | Instr::Rrca | Instr::Rla | Instr::Rra | Instr::Daa | Instr::Cpl | Instr::Scf | Instr::Ccf => self.execute_arithmetic(instr, mmu),
            Instr::Jr(_) | Instr::Jp(_) | Instr::JpHl | Instr::Call(_) | Instr::Ret(_) | Instr::Reti | Instr::Rst(_) | Instr::Push(_) | Instr::Pop(_) => self.execute_flow(instr, mmu),
        }
    }
}

/// Whether `instr` belongs to the group that `execute_control` handles.
pub open spec fn is_control(instr: Instr) -> bool {
    match instr {
        Instr::Nop | Instr::Stop | Instr::Halt | Instr::Di | Instr::Ei | Instr::Prefix | Instr::Illegal => true,
        _ => false,
    }
}

/// Whether `instr` belongs to the group that `execute_load` handles.
pub open spec fn is_load(instr: Instr) -> bool {
    match instr {
        Instr::Ld(_, _) | Instr::LdImm(_) | Instr::LdWide(_) | Instr::StoreA(_) | Instr::LoadA(_) | Instr::StoreSp | Instr::LdSpHl | Instr::LdHlSpOffset | Instr::StoreHigh | Instr::LoadHigh | Instr::StoreHighC | Instr::LoadHighC | Instr::StoreAbs | Instr::LoadAbs => true,
        _ => false,
    }
}

/// Whether `instr` belongs to the group that `execute_arithmetic` handles.
pub open spec fn is_arithmetic(instr: Instr) -> bool {
    match instr {
        Instr::Inc(_) | Instr::Dec(_) | Instr::IncWide(_) | Instr::DecWide(_) | Instr::AddHl(_) | Instr::AddSp | Instr::Alu(_, _) | Instr::AluImm(_) | Instr::Rlca | Instr::Rrca | Instr::Rla | Instr::Rra | Instr::Daa | Instr::Cpl | Instr::Scf | Instr::Ccf => true,
        _ => false,
    }
}

/// Whether `instr` belongs to the group that `execute_flow` handles.
pub open spec fn is_flow(instr: Instr) -> bool {
    match instr {
        Instr::Jr(_) | Instr::Jp(_) | Instr::JpHl | Instr::Call(_) | Instr::Ret(_) | Instr::Reti | Instr::Rst(_) | Instr::Push(_) | Instr::Pop(_) => true,
        _ => false,
    }
}

/// Every instruction but an illegal one takes between 4 and 24 cycles.
pub proof fn lemma_cost_bounds(m: Machine, instr: Instr)
    ensures
        instr != Instr::Illegal ==> MIN_CYCLES <= m.cost(instr) <= MAX_CYCLES,
        m.cost(instr) % 4 == 0,
{
}

/// Every step that succeeds takes between 4 and 24 cycles.
pub proof fn lemma_step_bounds(m: Machine)
    ensures
        match m.step_result() {
            Ok(cycles) => MIN_CYCLES <= cycles <= MAX_CYCLES,
            Err(_) => true,
        },
{
    let (opcode, after) = m.awake().fetch_byte();
    lemma_cost_bounds(after, spec_decode(opcode));
}

} // verus!
