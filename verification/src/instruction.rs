//! The instruction set of the SM83: what each opcode byte stands for.
//!
//! An opcode splits into the fields `x` (bits 7 and 6), `y` (bits 5 to 3)
//! and `z` (bits 2 to 0); `p` is the upper two bits of `y` and `q` its
//! lowest.  The spec functions state the encoding by these fields; the
//! executable decoders are tables, proved to agree with them entry by
//! entry.

use vstd::prelude::*;

verus! {

/// An eight-bit operand: a register, or the byte that HL points to.
#[derive(Clone, Copy, Debug, PartialEq, Eq, Structural)]
pub enum Target {
    B,
    C,
    D,
    E,
    H,
    L,
    HlIndirect,
    A,
}

/// A sixteen-bit operand of loads and arithmetic.
#[derive(Clone, Copy, Debug, PartialEq, Eq, Structural)]
pub enum Wide {
    BC,
    DE,
    HL,
    SP,
}

/// A register pair that can be pushed and popped.
#[derive(Clone, Copy, Debug, PartialEq, Eq, Structural)]
pub enum StackPair {
    BC,
    DE,
    HL,
    AF,
}

/// Where an indirect load or store of A points: BC, DE, or HL with HL
/// moved on or back afterwards.
#[derive(Clone, Copy, Debug, PartialEq, Eq, Structural)]
pub enum Pointer {
    BC,
    DE,
    HlIncrement,
    HlDecrement,
}

/// The condition of a jump, call or return.
#[derive(Clone, Copy, Debug, PartialEq, Eq, Structural)]
pub enum Cond {
    Always,
    NotZero,
    Zero,
    NotCarry,
    Carry,
}

/// An arithmetic or logic operation on A and one operand.
#[derive(Clone, Copy, Debug, PartialEq, Eq, Structural)]
pub enum AluOp {
    Add,
    Adc,
    Sub,
    Sbc,
    And,
    Xor,
    Or,
    Cp,
}

/// A rotate, shift or swap of the second table.
#[derive(Clone, Copy, Debug, PartialEq, Eq, Structural)]
pub enum RotOp {
    Rlc,
    Rrc,
    Rl,
    Rr,
    Sla,
    Sra,
    Swap,
    Srl,
}

/// An instruction of the first table.
#[derive(Clone, Copy, Debug, PartialEq, Eq, Structural)]
pub enum Instr {
    Nop,
    Stop,
    Halt,
    Di,
    Ei,
    /// `LD r,r'`.
    Ld(Target, Target),
    /// `LD r,d8`.
    LdImm(Target),
    /// `LD rr,d16`.
    LdWide(Wide),
    /// `LD (BC),A` and its kin.
    StoreA(Pointer),
    /// `LD A,(BC)` and its kin.
    LoadA(Pointer),
    /// `LD (a16),SP`.
    StoreSp,
    /// `LD SP,HL`.
    LdSpHl,
    /// `LD HL,SP+r8`.
    LdHlSpOffset,
    /// `LDH (a8),A`.
    StoreHigh,
    /// `LDH A,(a8)`.
    LoadHigh,
    /// `LD (C),A`.
    StoreHighC,
    /// `LD A,(C)`.
    LoadHighC,
    /// `LD (a16),A`.
    StoreAbs,
    /// `LD A,(a16)`.
    LoadAbs,
    Inc(Target),
    Dec(Target),
    IncWide(Wide),
    DecWide(Wide),
    /// `ADD HL,rr`.
    AddHl(Wide),
    /// `ADD SP,r8`.
    AddSp,
    Alu(AluOp, Target),
    /// An arithmetic or logic operation on A and the next byte.
    AluImm(AluOp),
    Rlca,
    Rrca,
    Rla,
    Rra,
    Daa,
    Cpl,
    Scf,
    Ccf,
    Jr(Cond),
    Jp(Cond),
    /// `JP (HL)`.
    JpHl,
    Call(Cond),
    Ret(Cond),
    Reti,
    /// `RST` to the given address.
    Rst(u8),
    Push(StackPair),
    Pop(StackPair),
    /// The byte `0xCB`: the next byte is of the second table.
    Prefix,
    /// One of the eleven bytes that stand for nothing.
    Illegal,
}

/// An instruction of the second table.
#[derive(Clone, Copy, Debug, PartialEq, Eq, Structural)]
pub enum CbInstr {
    Rot(RotOp, Target),
    /// `BIT n,r`.
    TestBit(u8, Target),
    /// `RES n,r`.
    ResetBit(u8, Target),
    /// `SET n,r`.
    SetBit(u8, Target),
}

/// The eight-bit operand with number `i`.
pub open spec fn target_of(i: int) -> Target {
    if i == 0 {
        Target::B
    } else if i == 1 {
        Target::C
    } else if i == 2 {
        Target::D
    } else if i == 3 {
        Target::E
    } else if i == 4 {
        Target::H
    } else if i == 5 {
        Target::L
    } else if i == 6 {
        Target::HlIndirect
    } else {
        Target::A
    }
}

/// The sixteen-bit operand with number `p`.
pub open spec fn wide_of(p: int) -> Wide {
    if p == 0 {
        Wide::BC
    } else if p == 1 {
        Wide::DE
    } else if p == 2 {
        Wide::HL
    } else {
        Wide::SP
    }
}

/// The stack pair with number `p`.
pub open spec fn stack_pair_of(p: int) -> StackPair {
    if p == 0 {
        StackPair::BC
    } else if p == 1 {
        StackPair::DE
    } else if p == 2 {
        StackPair::HL
    } else {
        StackPair::AF
    }
}

/// The pointer with number `p`.
pub open spec fn pointer_of(p: int) -> Pointer {
    if p == 0 {
        Pointer::BC
    } else if p == 1 {
        Pointer::DE
    } else if p == 2 {
        Pointer::HlIncrement
    } else {
        Pointer::HlDecrement
    }
}

/// The condition with number `i`: NZ, Z, NC, C.
pub open spec fn cond_of(i: int) -> Cond {
    if i == 0 {
        Cond::NotZero
    } else if i == 1 {
        Cond::Zero
    } else if i == 2 {
        Cond::NotCarry
    } else {
        Cond::Carry
    }
}

/// The arithmetic or logic operation with number `y`.
pub open spec fn alu_op_of(y: int) -> AluOp {
    if y == 0 {
        AluOp::Add
    } else if y == 1 {
        AluOp::Adc
    } else if y == 2 {
        AluOp::Sub
    } else if y == 3 {
        AluOp::Sbc
    } else if y == 4 {
        AluOp::And
    } else if y == 5 {
        AluOp::Xor
    } else if y == 6 {
        AluOp::Or
    } else {
        AluOp::Cp
    }
}

/// The rotate or shift with number `y`.
pub open spec fn rot_op_of(y: int) -> RotOp {
    if y == 0 {
        RotOp::Rlc
    } else if y == 1 {
        RotOp::Rrc
    } else if y == 2 {
        RotOp::Rl
    } else if y == 3 {
        RotOp::Rr
    } else if y == 4 {
        RotOp::Sla
    } else if y == 5 {
        RotOp::Sra
    } else if y == 6 {
        RotOp::Swap
    } else {
        RotOp::Srl
    }
}

/// The instructions whose opcode has `x == 0`.
pub open spec fn decode_low(y: int, z: int) -> Instr {
    let p = y / 2;
    let q = y % 2;
    if z == 0 {
        if y == 0 {
            Instr::Nop
        } else if y == 1 {
            Instr::StoreSp
        } else if y == 2 {
            Instr::Stop
        } else if y == 3 {
            Instr::Jr(Cond::Always)
        } else {
            Instr::Jr(cond_of(y - 4))
        }
    } else if z == 1 {
        if q == 0 {
            Instr::LdWide(wide_of(p))
        } else {
            Instr::AddHl(wide_of(p))
        }
    } else if z == 2 {
        if q == 0 {
            Instr::StoreA(pointer_of(p))
        } else {
            Instr::LoadA(pointer_of(p))
        }
    } else if z == 3 {
        if q == 0 {
            Instr::IncWide(wide_of(p))
        } else {
            Instr::DecWide(wide_of(p))
        }
    } else if z == 4 {
        Instr::Inc(target_of(y))
    } else if z == 5 {
        Instr::Dec(target_of(y))
    } else if z == 6 {
        Instr::LdImm(target_of(y))
    } else if y == 0 {
        Instr::Rlca
    } else if y == 1 {
        Instr::Rrca
    } else if y == 2 {
        Instr::Rla
    } else if y == 3 {
        Instr::Rra
    } else if y == 4 {
        Instr::Daa
    } else if y == 5 {
        Instr::Cpl
    } else if y == 6 {
        Instr::Scf
    } else {
        Instr::Ccf
    }
}

/// The instructions whose opcode has `x == 3`.
pub open spec fn decode_high(y: int, z: int) -> Instr {
    let p = y / 2;
    let q = y % 2;
    if z == 0 {
        if y < 4 {
            Instr::Ret(cond_of(y))
        } else if y == 4 {
            Instr::StoreHigh
        } else if y == 5 {
            Instr::AddSp
        } else if y == 6 {
            Instr::LoadHigh
        } else {
            Instr::LdHlSpOffset
        }
    } else if z == 1 {
        if q == 0 {
            Instr::Pop(stack_pair_of(p))
        } else if p == 0 {
            Instr::Ret(Cond::Always)
        } else if p == 1 {
            Instr::Reti
        } else if p == 2 {
            Instr::JpHl
        } else {
            Instr::LdSpHl
        }
    } else if z == 2 {
        if y < 4 {
            Instr::Jp(cond_of(y))
        } else if y == 4 {
            Instr::StoreHighC
        } else if y == 5 {
            Instr::StoreAbs
        } else if y == 6 {
            Instr::LoadHighC
        } else {
            Instr::LoadAbs
        }
    } else if z == 3 {
        if y == 0 {
            Instr::Jp(Cond::Always)
        } else if y == 1 {
            Instr::Prefix
        } else if y == 6 {
            Instr::Di
        } else if y == 7 {
            Instr::Ei
        } else {
            Instr::Illegal
        }
    } else if z == 4 {
        if y < 4 {
            Instr::Call(cond_of(y))
        } else {
            Instr::Illegal
        }
    } else if z == 5 {
        if q == 0 {
            Instr::Push(stack_pair_of(p))
        } else if p == 0 {
            Instr::Call(Cond::Always)
        } else {
            Instr::Illegal
        }
    } else if z == 6 {
        Instr::AluImm(alu_op_of(y))
    } else {
        Instr::Rst((y * 8) as u8)
    }
}

/// The instruction that an opcode of the first table stands for.
pub open spec fn spec_decode(opcode: u8) -> Instr {
    let x = opcode / 64;
    let y = (opcode / 8) % 8;
    let z = opcode % 8;
    if x == 0 {
        decode_low(y as int, z as int)
    } else if x == 1 {
        if opcode == 0x76 {
            Instr::Halt
        } else {
            Instr::Ld(target_of(y as int), target_of(z as int))
        }
    } else if x == 2 {
        Instr::Alu(alu_op_of(y as int), target_of(z as int))
    } else {
        decode_high(y as int, z as int)
    }
}

/// The instruction that an opcode of the second table stands for.
pub open spec fn spec_decode_cb(opcode: u8) -> CbInstr {
    let x = opcode / 64;
    let y = (opcode / 8) % 8;
    let z = opcode % 8;
    if x == 0 {
        CbInstr::Rot(rot_op_of(y as int), target_of(z as int))
    } else if x == 1 {
        CbInstr::TestBit(y, target_of(z as int))
    } else if x == 2 {
        CbInstr::ResetBit(y, target_of(z as int))
    } else {
        CbInstr::SetBit(y, target_of(z as int))
    }
}

/// Whether `opcode` is one of the eleven bytes without an instruction.
pub open spec fn is_illegal(opcode: u8) -> bool {
    opcode == 0xd3 || opcode == 0xdb || opcode == 0xdd || opcode == 0xe3 || opcode == 0xe4
        || opcode == 0xeb || opcode == 0xec || opcode == 0xed || opcode == 0xf4 || opcode == 0xfc
        || opcode == 0xfd
}

/// Looks an opcode up in the first table.
#[verifier::rlimit(60)]
pub fn decode(opcode: u8) -> (r: Instr)
    ensures
        r == spec_decode(opcode),
        (r == Instr::Illegal) == is_illegal(opcode),
{
    match opcode {
        0x00 => Instr::Nop,
        0x01 => Instr::LdWide(Wide::BC),
        0x02 => Instr::StoreA(Pointer::BC),
        0x03 => Instr::IncWide(Wide::BC),
        0x04 => Instr::Inc(Target::B),
        0x05 => Instr::Dec(Target::B),
        0x06 => Instr::LdImm(Target::B),
        0x07 => Instr::Rlca,
        0x08 => Instr::StoreSp,
        0x09 => Instr::AddHl(Wide::BC),
        0x0a => Instr::LoadA(Pointer::BC),
        0x0b => Instr::DecWide(Wide::BC),
        0x0c => Instr::Inc(Target::C),
        0x0d => Instr::Dec(Target::C),
        0x0e => Instr::LdImm(Target::C),
        0x0f => Instr::Rrca,
        0x10 => Instr::Stop,
        0x11 => Instr::LdWide(Wide::DE),
        0x12 => Instr::StoreA(Pointer::DE),
        0x13 => Instr::IncWide(Wide::DE),
        0x14 => Instr::Inc(Target::D),
        0x15 => Instr::Dec(Target::D),
        0x16 => Instr::LdImm(Target::D),
        0x17 => Instr::Rla,
        0x18 => Instr::Jr(Cond::Always),
        0x19 => Instr::AddHl(Wide::DE),
        0x1a => Instr::LoadA(Pointer::DE),
        0x1b => Instr::DecWide(Wide::DE),
        0x1c => Instr::Inc(Target::E),
        0x1d => Instr::Dec(Target::E),
        0x1e => Instr::LdImm(Target::E),
        0x1f => Instr::Rra,
        0x20 => Instr::Jr(Cond::NotZero),
        0x21 => Instr::LdWide(Wide::HL),
        0x22 => Instr::StoreA(Pointer::HlIncrement),
        0x23 => Instr::IncWide(Wide::HL),
        0x24 => Instr::Inc(Target::H),
        0x25 => Instr::Dec(Target::H),
        0x26 => Instr::LdImm(Target::H),
        0x27 => Instr::Daa,
        0x28 => Instr::Jr(Cond::Zero),
        0x29 => Instr::AddHl(Wide::HL),
        0x2a => Instr::LoadA(Pointer::HlIncrement),
        0x2b => Instr::DecWide(Wide::HL),
        0x2c => Instr::Inc(Target::L),
        0x2d => Instr::Dec(Target::L),
        0x2e => Instr::LdImm(Target::L),
        0x2f => Instr::Cpl,
        0x30 => Instr::Jr(Cond::NotCarry),
        0x31 => Instr::LdWide(Wide::SP),
        0x32 => Instr::StoreA(Pointer::HlDecrement),
        0x33 => Instr::IncWide(Wide::SP),
        0x34 => Instr::Inc(Target::HlIndirect),
        0x35 => Instr::Dec(Target::HlIndirect),
        0x36 => Instr::LdImm(Target::HlIndirect),
        0x37 => Instr::Scf,
        0x38 => Instr::Jr(Cond::Carry),
        0x39 => Instr::AddHl(Wide::SP),
        0x3a => Instr::LoadA(Pointer::HlDecrement),
        0x3b => Instr::DecWide(Wide::SP),
        0x3c => Instr::Inc(Target::A),
        0x3d => Instr::Dec(Target::A),
        0x3e => Instr::LdImm(Target::A),
        0x3f => Instr::Ccf,
        0x40 => Instr::Ld(Target::B, Target::B),
        0x41 => Instr::Ld(Target::B, Target::C),
        0x42 => Instr::Ld(Target::B, Target::D),
        0x43 => Instr::Ld(Target::B, Target::E),
        0x44 => Instr::Ld(Target::B, Target::H),
        0x45 => Instr::Ld(Target::B, Target::L),
        0x46 => Instr::Ld(Target::B, Target::HlIndirect),
        0x47 => Instr::Ld(Target::B, Target::A),
        0x48 => Instr::Ld(Target::C, Target::B),
        0x49 => Instr::Ld(Target::C, Target::C),
        0x4a => Instr::Ld(Target::C, Target::D),
        0x4b => Instr::Ld(Target::C, Target::E),
        0x4c => Instr::Ld(Target::C, Target::H),
        0x4d => Instr::Ld(Target::C, Target::L),
        0x4e => Instr::Ld(Target::C, Target::HlIndirect),
        0x4f => Instr::Ld(Target::C, Target::A),
        0x50 => Instr::Ld(Target::D, Target::B),
        0x51 => Instr::Ld(Target::D, Target::C),
        0x52 => Instr::Ld(Target::D, Target::D),
        0x53 => Instr::Ld(Target::D, Target::E),
        0x54 => Instr::Ld(Target::D, Target::H),
        0x55 => Instr::Ld(Target::D, Target::L),
        0x56 => Instr::Ld(Target::D, Target::HlIndirect),
        0x57 => Instr::Ld(Target::D, Target::A),
        0x58 => Instr::Ld(Target::E, Target::B),
        0x59 => Instr::Ld(Target::E, Target::C),
        0x5a => Instr::Ld(Target::E, Target::D),
        0x5b => Instr::Ld(Target::E, Target::E),
        0x5c => Instr::Ld(Target::E, Target::H),
        0x5d => Instr::Ld(Target::E, Target::L),
        0x5e => Instr::Ld(Target::E, Target::HlIndirect),
        0x5f => Instr::Ld(Target::E, Target::A),
        0x60 => Instr::Ld(Target::H, Target::B),
        0x61 => Instr::Ld(Target::H, Target::C),
        0x62 => Instr::Ld(Target::H, Target::D),
        0x63 => Instr::Ld(Target::H, Target::E),
        0x64 => Instr::Ld(Target::H, Target::H),
        0x65 => Instr::Ld(Target::H, Target::L),
        0x66 => Instr::Ld(Target::H, Target::HlIndirect),
        0x67 => Instr::Ld(Target::H, Target::A),
        0x68 => Instr::Ld(Target::L, Target::B),
        0x69 => Instr::Ld(Target::L, Target::C),
        0x6a => Instr::Ld(Target::L, Target::D),
        0x6b => Instr::Ld(Target::L, Target::E),
        0x6c => Instr::Ld(Target::L, Target::H),
        0x6d => Instr::Ld(Target::L, Target::L),
        0x6e => Instr::Ld(Target::L, Target::HlIndirect),
        0x6f => Instr::Ld(Target::L, Target::A),
        0x70 => Instr::Ld(Target::HlIndirect, Target::B),
        0x71 => Instr::Ld(Target::HlIndirect, Target::C),
        0x72 => Instr::Ld(Target::HlIndirect, Target::D),
        0x73 => Instr::Ld(Target::HlIndirect, Target::E),
        0x74 => Instr::Ld(Target::HlIndirect, Target::H),
        0x75 => Instr::Ld(Target::HlIndirect, Target::L),
        0x76 => Instr::Halt,
        0x77 => Instr::Ld(Target::HlIndirect, Target::A),
        0x78 => Instr::Ld(Target::A, Target::B),
        0x79 => Instr::Ld(Target::A, Target::C),
        0x7a => Instr::Ld(Target::A, Target::D),
        0x7b => Instr::Ld(Target::A, Target::E),
        0x7c => Instr::Ld(Target::A, Target::H),
        0x7d => Instr::Ld(Target::A, Target::L),
        0x7e => Instr::Ld(Target::A, Target::HlIndirect),
        0x7f => Instr::Ld(Target::A, Target::A),
        0x80 => Instr::Alu(AluOp::Add, Target::B),
        0x81 => Instr::Alu(AluOp::Add, Target::C),
        0x82 => Instr::Alu(AluOp::Add, Target::D),
        0x83 => Instr::Alu(AluOp::Add, Target::E),
        0x84 => Instr::Alu(AluOp::Add, Target::H),
        0x85 => Instr::Alu(AluOp::Add, Target::L),
        0x86 => Instr::Alu(AluOp::Add, Target::HlIndirect),
        0x87 => Instr::Alu(AluOp::Add, Target::A),
        0x88 => Instr::Alu(AluOp::Adc, Target::B),
        0x89 => Instr::Alu(AluOp::Adc, Target::C),
        0x8a => Instr::Alu(AluOp::Adc, Target::D),
        0x8b => Instr::Alu(AluOp::Adc, Target::E),
        0x8c => Instr::Alu(AluOp::Adc, Target::H),
        0x8d => Instr::Alu(AluOp::Adc, Target::L),
        0x8e => Instr::Alu(AluOp::Adc, Target::HlIndirect),
        0x8f => Instr::Alu(AluOp::Adc, Target::A),
        0x90 => Instr::Alu(AluOp::Sub, Target::B),
        0x91 => Instr::Alu(AluOp::Sub, Target::C),
        0x92 => Instr::Alu(AluOp::Sub, Target::D),
        0x93 => Instr::Alu(AluOp::Sub, Target::E),
        0x94 => Instr::Alu(AluOp::Sub, Target::H),
        0x95 => Instr::Alu(AluOp::Sub, Target::L),
        0x96 => Instr::Alu(AluOp::Sub, Target::HlIndirect),
        0x97 => Instr::Alu(AluOp::Sub, Target::A),
        0x98 => Instr::Alu(AluOp::Sbc, Target::B),
        0x99 => Instr::Alu(AluOp::Sbc, Target::C),
        0x9a => Instr::Alu(AluOp::Sbc, Target::D),
        0x9b => Instr::Alu(AluOp::Sbc, Target::E),
        0x9c => Instr::Alu(AluOp::Sbc, Target::H),
        0x9d => Instr::Alu(AluOp::Sbc, Target::L),
        0x9e => Instr::Alu(AluOp::Sbc, Target::HlIndirect),
        0x9f => Instr::Alu(AluOp::Sbc, Target::A),
        0xa0 => Instr::Alu(AluOp::And, Target::B),
        0xa1 => Instr::Alu(AluOp::And, Target::C),
        0xa2 => Instr::Alu(AluOp::And, Target::D),
        0xa3 => Instr::Alu(AluOp::And, Target::E),
        0xa4 => Instr::Alu(AluOp::And, Target::H),
        0xa5 => Instr::Alu(AluOp::And, Target::L),
        0xa6 => Instr::Alu(AluOp::And, Target::HlIndirect),
        0xa7 => Instr::Alu(AluOp::And, Target::A),
        0xa8 => Instr::Alu(AluOp::Xor, Target::B),
        0xa9 => Instr::Alu(AluOp::Xor, Target::C),
        0xaa => Instr::Alu(AluOp::Xor, Target::D),
        0xab => Instr::Alu(AluOp::Xor, Target::E),
        0xac => Instr::Alu(AluOp::Xor, Target::H),
        0xad => Instr::Alu(AluOp::Xor, Target::L),
        0xae => Instr::Alu(AluOp::Xor, Target::HlIndirect),
        0xaf => Instr::Alu(AluOp::Xor, Target::A),
        0xb0 => Instr::Alu(AluOp::Or, Target::B),
        0xb1 => Instr::Alu(AluOp::Or, Target::C),
        0xb2 => Instr::Alu(AluOp::Or, Target::D),
        0xb3 => Instr::Alu(AluOp::Or, Target::E),
        0xb4 => Instr::Alu(AluOp::Or, Target::H),
        0xb5 => Instr::Alu(AluOp::Or, Target::L),
        0xb6 => Instr::Alu(AluOp::Or, Target::HlIndirect),
        0xb7 => Instr::Alu(AluOp::Or, Target::A),
        0xb8 => Instr::Alu(AluOp::Cp, Target::B),
        0xb9 => Instr::Alu(AluOp::Cp, Target::C),
        0xba => Instr::Alu(AluOp::Cp, Target::D),
        0xbb => Instr::Alu(AluOp::Cp, Target::E),
        0xbc => Instr::Alu(AluOp::Cp, Target::H),
        0xbd => Instr::Alu(AluOp::Cp, Target::L),
        0xbe => Instr::Alu(AluOp::Cp, Target::HlIndirect),
        0xbf => Instr::Alu(AluOp::Cp, Target::A),
        0xc0 => Instr::Ret(Cond::NotZero),
        0xc1 => Instr::Pop(StackPair::BC),
        0xc2 => Instr::Jp(Cond::NotZero),
        0xc3 => Instr::Jp(Cond::Always),
        0xc4 => Instr::Call(Cond::NotZero),
        0xc5 => Instr::Push(StackPair::BC),
        0xc6 => Instr::AluImm(AluOp::Add),
        0xc7 => Instr::Rst(0x00),
        0xc8 => Instr::Ret(Cond::Zero),
        0xc9 => Instr::Ret(Cond::Always),
        0xca => Instr::Jp(Cond::Zero),
        0xcb => Instr::Prefix,
        0xcc => Instr::Call(Cond::Zero),
        0xcd => Instr::Call(Cond::Always),
        0xce => Instr::AluImm(AluOp::Adc),
        0xcf => Instr::Rst(0x08),
        0xd0 => Instr::Ret(Cond::NotCarry),
        0xd1 => Instr::Pop(StackPair::DE),
        0xd2 => Instr::Jp(Cond::NotCarry),
        0xd3 => Instr::Illegal,
        0xd4 => Instr::Call(Cond::NotCarry),
        0xd5 => Instr::Push(StackPair::DE),
        0xd6 => Instr::AluImm(AluOp::Sub),
        0xd7 => Instr::Rst(0x10),
        0xd8 => Instr::Ret(Cond::Carry),
        0xd9 => Instr::Reti,
        0xda => Instr::Jp(Cond::Carry),
        0xdb => Instr::Illegal,
        0xdc => Instr::Call(Cond::Carry),
        0xdd => Instr::Illegal,
        0xde => Instr::AluImm(AluOp::Sbc),
        0xdf => Instr::Rst(0x18),
        0xe0 => Instr::StoreHigh,
        0xe1 => Instr::Pop(StackPair::HL),
        0xe2 => Instr::StoreHighC,
        0xe3 => Instr::Illegal,
        0xe4 => Instr::Illegal,
        0xe5 => Instr::Push(StackPair::HL),
        0xe6 => Instr::AluImm(AluOp::And),
        0xe7 => Instr::Rst(0x20),
        0xe8 => Instr::AddSp,
        0xe9 => Instr::JpHl,
        0xea => Instr::StoreAbs,
        0xeb => Instr::Illegal,
        0xec => Instr::Illegal,
        0xed => Instr::Illegal,
        0xee => Instr::AluImm(AluOp::Xor),
        0xef => Instr::Rst(0x28),
        0xf0 => Instr::LoadHigh,
        0xf1 => Instr::Pop(StackPair::AF),
        0xf2 => Instr::LoadHighC,
        0xf3 => Instr::Di,
        0xf4 => Instr::Illegal,
        0xf5 => Instr::Push(StackPair::AF),
        0xf6 => Instr::AluImm(AluOp::Or),
        0xf7 => Instr::Rst(0x30),
        0xf8 => Instr::LdHlSpOffset,
        0xf9 => Instr::LdSpHl,
        0xfa => Instr::LoadAbs,
        0xfb => Instr::Ei,
        0xfc => Instr::Illegal,
        0xfd => Instr::Illegal,
        0xfe => Instr::AluImm(AluOp::Cp),
        0xff => Instr::Rst(0x38),
    }
}

/// Looks an opcode up in the second table.
#[verifier::rlimit(60)]
pub fn decode_cb(opcode: u8) -> (r: CbInstr)
    ensures
        r == spec_decode_cb(opcode),
        match r {
            CbInstr::Rot(_, _) => true,
            CbInstr::TestBit(n, _) => n < 8,
            CbInstr::ResetBit(n, _) => n < 8,
            CbInstr::SetBit(n, _) => n < 8,
        },
{
    match opcode {
        0x00 => CbInstr::Rot(RotOp::Rlc, Target::B),
        0x01 => CbInstr::Rot(RotOp::Rlc, Target::C),
        0x02 => CbInstr::Rot(RotOp::Rlc, Target::D),
        0x03 => CbInstr::Rot(RotOp::Rlc, Target::E),
        0x04 => CbInstr::Rot(RotOp::Rlc, Target::H),
        0x05 => CbInstr::Rot(RotOp::Rlc, Target::L),
        0x06 => CbInstr::Rot(RotOp::Rlc, Target::HlIndirect),
        0x07 => CbInstr::Rot(RotOp::Rlc, Target::A),
        0x08 => CbInstr::Rot(RotOp::Rrc, Target::B),
        0x09 => CbInstr::Rot(RotOp::Rrc, Target::C),
        0x0a => CbInstr::Rot(RotOp::Rrc, Target::D),
        0x0b => CbInstr::Rot(RotOp::Rrc, Target::E),
        0x0c => CbInstr::Rot(RotOp::Rrc, Target::H),
        0x0d => CbInstr::Rot(RotOp::Rrc, Target::L),
        0x0e => CbInstr::Rot(RotOp::Rrc, Target::HlIndirect),
        0x0f => CbInstr::Rot(RotOp::Rrc, Target::A),
        0x10 => CbInstr::Rot(RotOp::Rl, Target::B),
        0x11 => CbInstr::Rot(RotOp::Rl, Target::C),
        0x12 => CbInstr::Rot(RotOp::Rl, Target::D),
        0x13 => CbInstr::Rot(RotOp::Rl, Target::E),
        0x14 => CbInstr::Rot(RotOp::Rl, Target::H),
        0x15 => CbInstr::Rot(RotOp::Rl, Target::L),
        0x16 => CbInstr::Rot(RotOp::Rl, Target::HlIndirect),
        0x17 => CbInstr::Rot(RotOp::Rl, Target::A),
        0x18 => CbInstr::Rot(RotOp::Rr, Target::B),
        0x19 => CbInstr::Rot(RotOp::Rr, Target::C),
        0x1a => CbInstr::Rot(RotOp::Rr, Target::D),
        0x1b => CbInstr::Rot(RotOp::Rr, Target::E),
        0x1c => CbInstr::Rot(RotOp::Rr, Target::H),
        0x1d => CbInstr::Rot(RotOp::Rr, Target::L),
        0x1e => CbInstr::Rot(RotOp::Rr, Target::HlIndirect),
        0x1f => CbInstr::Rot(RotOp::Rr, Target::A),
        0x20 => CbInstr::Rot(RotOp::Sla, Target::B),
        0x21 => CbInstr::Rot(RotOp::Sla, Target::C),
        0x22 => CbInstr::Rot(RotOp::Sla, Target::D),
        0x23 => CbInstr::Rot(RotOp::Sla, Target::E),
        0x24 => CbInstr::Rot(RotOp::Sla, Target::H),
        0x25 => CbInstr::Rot(RotOp::Sla, Target::L),
        0x26 => CbInstr::Rot(RotOp::Sla, Target::HlIndirect),
        0x27 => CbInstr::Rot(RotOp::Sla, Target::A),
        0x28 => CbInstr::Rot(RotOp::Sra, Target::B),
        0x29 => CbInstr::Rot(RotOp::Sra, Target::C),
        0x2a => CbInstr::Rot(RotOp::Sra, Target::D),
        0x2b => CbInstr::Rot(RotOp::Sra, Target::E),
        0x2c => CbInstr::Rot(RotOp::Sra, Target::H),
        0x2d => CbInstr::Rot(RotOp::Sra, Target::L),
        0x2e => CbInstr::Rot(RotOp::Sra, Target::HlIndirect),
        0x2f => CbInstr::Rot(RotOp::Sra, Target::A),
        0x30 => CbInstr::Rot(RotOp::Swap, Target::B),
        0x31 => CbInstr::Rot(RotOp::Swap, Target::C),
        0x32 => CbInstr::Rot(RotOp::Swap, Target::D),
        0x33 => CbInstr::Rot(RotOp::Swap, Target::E),
        0x34 => CbInstr::Rot(RotOp::Swap, Target::H),
        0x35 => CbInstr::Rot(RotOp::Swap, Target::L),
        0x36 => CbInstr::Rot(RotOp::Swap, Target::HlIndirect),
        0x37 => CbInstr::Rot(RotOp::Swap, Target::A),
        0x38 => CbInstr::Rot(RotOp::Srl, Target::B),
        0x39 => CbInstr::Rot(RotOp::Srl, Target::C),
        0x3a => CbInstr::Rot(RotOp::Srl, Target::D),
        0x3b => CbInstr::Rot(RotOp::Srl, Target::E),
        0x3c => CbInstr::Rot(RotOp::Srl, Target::H),
        0x3d => CbInstr::Rot(RotOp::Srl, Target::L),
        0x3e => CbInstr::Rot(RotOp::Srl, Target::HlIndirect),
        0x3f => CbInstr::Rot(RotOp::Srl, Target::A),
        0x40 => CbInstr::TestBit(0, Target::B),
        0x41 => CbInstr::TestBit(0, Target::C),
        0x42 => CbInstr::TestBit(0, Target::D),
        0x43 => CbInstr::TestBit(0, Target::E),
        0x44 => CbInstr::TestBit(0, Target::H),
        0x45 => CbInstr::TestBit(0, Target::L),
        0x46 => CbInstr::TestBit(0, Target::HlIndirect),
        0x47 => CbInstr::TestBit(0, Target::A),
        0x48 => CbInstr::TestBit(1, Target::B),
        0x49 => CbInstr::TestBit(1, Target::C),
        0x4a => CbInstr::TestBit(1, Target::D),
        0x4b => CbInstr::TestBit(1, Target::E),
        0x4c => CbInstr::TestBit(1, Target::H),
        0x4d => CbInstr::TestBit(1, Target::L),
        0x4e => CbInstr::TestBit(1, Target::HlIndirect),
        0x4f => CbInstr::TestBit(1, Target::A),
        0x50 => CbInstr::TestBit(2, Target::B),
        0x51 => CbInstr::TestBit(2, Target::C),
        0x52 => CbInstr::TestBit(2, Target::D),
        0x53 => CbInstr::TestBit(2, Target::E),
        0x54 => CbInstr::TestBit(2, Target::H),
        0x55 => CbInstr::TestBit(2, Target::L),
        0x56 => CbInstr::TestBit(2, Target::HlIndirect),
        0x57 => CbInstr::TestBit(2, Target::A),
        0x58 => CbInstr::TestBit(3, Target::B),
        0x59 => CbInstr::TestBit(3, Target::C),
        0x5a => CbInstr::TestBit(3, Target::D),
        0x5b => CbInstr::TestBit(3, Target::E),
        0x5c => CbInstr::TestBit(3, Target::H),
        0x5d => CbInstr::TestBit(3, Target::L),
        0x5e => CbInstr::TestBit(3, Target::HlIndirect),
        0x5f => CbInstr::TestBit(3, Target::A),
        0x60 => CbInstr::TestBit(4, Target::B),
        0x61 => CbInstr::TestBit(4, Target::C),
        0x62 => CbInstr::TestBit(4, Target::D),
        0x63 => CbInstr::TestBit(4, Target::E),
        0x64 => CbInstr::TestBit(4, Target::H),
        0x65 => CbInstr::TestBit(4, Target::L),
        0x66 => CbInstr::TestBit(4, Target::HlIndirect),
        0x67 => CbInstr::TestBit(4, Target::A),
        0x68 => CbInstr::TestBit(5, Target::B),
        0x69 => CbInstr::TestBit(5, Target::C),
        0x6a => CbInstr::TestBit(5, Target::D),
        0x6b => CbInstr::TestBit(5, Target::E),
        0x6c => CbInstr::TestBit(5, Target::H),
        0x6d => CbInstr::TestBit(5, Target::L),
        0x6e => CbInstr::TestBit(5, Target::HlIndirect),
        0x6f => CbInstr::TestBit(5, Target::A),
        0x70 => CbInstr::TestBit(6, Target::B),
        0x71 => CbInstr::TestBit(6, Target::C),
        0x72 => CbInstr::TestBit(6, Target::D),
        0x73 => CbInstr::TestBit(6, Target::E),
        0x74 => CbInstr::TestBit(6, Target::H),
        0x75 => CbInstr::TestBit(6, Target::L),
        0x76 => CbInstr::TestBit(6, Target::HlIndirect),
        0x77 => CbInstr::TestBit(6, Target::A),
        0x78 => CbInstr::TestBit(7, Target::B),
        0x79 => CbInstr::TestBit(7, Target::C),
        0x7a => CbInstr::TestBit(7, Target::D),
        0x7b => CbInstr::TestBit(7, Target::E),
        0x7c => CbInstr::TestBit(7, Target::H),
        0x7d => CbInstr::TestBit(7, Target::L),
        0x7e => CbInstr::TestBit(7, Target::HlIndirect),
        0x7f => CbInstr::TestBit(7, Target::A),
        0x80 => CbInstr::ResetBit(0, Target::B),
        0x81 => CbInstr::ResetBit(0, Target::C),
        0x82 => CbInstr::ResetBit(0, Target::D),
        0x83 => CbInstr::ResetBit(0, Target::E),
        0x84 => CbInstr::ResetBit(0, Target::H),
        0x85 => CbInstr::ResetBit(0, Target::L),
        0x86 => CbInstr::ResetBit(0, Target::HlIndirect),
        0x87 => CbInstr::ResetBit(0, Target::A),
        0x88 => CbInstr::ResetBit(1, Target::B),
        0x89 => CbInstr::ResetBit(1, Target::C),
        0x8a => CbInstr::ResetBit(1, Target::D),
        0x8b => CbInstr::ResetBit(1, Target::E),
        0x8c => CbInstr::ResetBit(1, Target::H),
        0x8d => CbInstr::ResetBit(1, Target::L),
        0x8e => CbInstr::ResetBit(1, Target::HlIndirect),
        0x8f => CbInstr::ResetBit(1, Target::A),
        0x90 => CbInstr::ResetBit(2, Target::B),
        0x91 => CbInstr::ResetBit(2, Target::C),
        0x92 => CbInstr::ResetBit(2, Target::D),
        0x93 => CbInstr::ResetBit(2, Target::E),
        0x94 => CbInstr::ResetBit(2, Target::H),
        0x95 => CbInstr::ResetBit(2, Target::L),
        0x96 => CbInstr::ResetBit(2, Target::HlIndirect),
        0x97 => CbInstr::ResetBit(2, Target::A),
        0x98 => CbInstr::ResetBit(3, Target::B),
        0x99 => CbInstr::ResetBit(3, Target::C),
        0x9a => CbInstr::ResetBit(3, Target::D),
        0x9b => CbInstr::ResetBit(3, Target::E),
        0x9c => CbInstr::ResetBit(3, Target::H),
        0x9d => CbInstr::ResetBit(3, Target::L),
        0x9e => CbInstr::ResetBit(3, Target::HlIndirect),
        0x9f => CbInstr::ResetBit(3, Target::A),
        0xa0 => CbInstr::ResetBit(4, Target::B),
        0xa1 => CbInstr::ResetBit(4, Target::C),
        0xa2 => CbInstr::ResetBit(4, Target::D),
        0xa3 => CbInstr::ResetBit(4, Target::E),
        0xa4 => CbInstr::ResetBit(4, Target::H),
        0xa5 => CbInstr::ResetBit(4, Target::L),
        0xa6 => CbInstr::ResetBit(4, Target::HlIndirect),
        0xa7 => CbInstr::ResetBit(4, Target::A),
        0xa8 => CbInstr::ResetBit(5, Target::B),
        0xa9 => CbInstr::ResetBit(5, Target::C),
        0xaa => CbInstr::ResetBit(5, Target::D),
        0xab => CbInstr::ResetBit(5, Target::E),
        0xac => CbInstr::ResetBit(5, Target::H),
        0xad => CbInstr::ResetBit(5, Target::L),
        0xae => CbInstr::ResetBit(5, Target::HlIndirect),
        0xaf => CbInstr::ResetBit(5, Target::A),
        0xb0 => CbInstr::ResetBit(6, Target::B),
        0xb1 => CbInstr::ResetBit(6, Target::C),
        0xb2 => CbInstr::ResetBit(6, Target::D),
        0xb3 => CbInstr::ResetBit(6, Target::E),
        0xb4 => CbInstr::ResetBit(6, Target::H),
        0xb5 => CbInstr::ResetBit(6, Target::L),
        0xb6 => CbInstr::ResetBit(6, Target::HlIndirect),
        0xb7 => CbInstr::ResetBit(6, Target::A),
        0xb8 => CbInstr::ResetBit(7, Target::B),
        0xb9 => CbInstr::ResetBit(7, Target::C),
        0xba => CbInstr::ResetBit(7, Target::D),
        0xbb => CbInstr::ResetBit(7, Target::E),
        0xbc => CbInstr::ResetBit(7, Target::H),
        0xbd => CbInstr::ResetBit(7, Target::L),
        0xbe => CbInstr::ResetBit(7, Target::HlIndirect),
        0xbf => CbInstr::ResetBit(7, Target::A),
        0xc0 => CbInstr::SetBit(0, Target::B),
        0xc1 => CbInstr::SetBit(0, Target::C),
        0xc2 => CbInstr::SetBit(0, Target::D),
        0xc3 => CbInstr::SetBit(0, Target::E),
        0xc4 => CbInstr::SetBit(0, Target::H),
        0xc5 => CbInstr::SetBit(0, Target::L),
        0xc6 => CbInstr::SetBit(0, Target::HlIndirect),
        0xc7 => CbInstr::SetBit(0, Target::A),
        0xc8 => CbInstr::SetBit(1, Target::B),
        0xc9 => CbInstr::SetBit(1, Target::C),
        0xca => CbInstr::SetBit(1, Target::D),
        0xcb => CbInstr::SetBit(1, Target::E),
        0xcc => CbInstr::SetBit(1, Target::H),
        0xcd => CbInstr::SetBit(1, Target::L),
        0xce => CbInstr::SetBit(1, Target::HlIndirect),
        0xcf => CbInstr::SetBit(1, Target::A),
        0xd0 => CbInstr::SetBit(2, Target::B),
        0xd1 => CbInstr::SetBit(2, Target::C),
        0xd2 => CbInstr::SetBit(2, Target::D),
        0xd3 => CbInstr::SetBit(2, Target::E),
        0xd4 => CbInstr::SetBit(2, Target::H),
        0xd5 => CbInstr::SetBit(2, Target::L),
        0xd6 => CbInstr::SetBit(2, Target::HlIndirect),
        0xd7 => CbInstr::SetBit(2, Target::A),
        0xd8 => CbInstr::SetBit(3, Target::B),
        0xd9 => CbInstr::SetBit(3, Target::C),
        0xda => CbInstr::SetBit(3, Target::D),
        0xdb => CbInstr::SetBit(3, Target::E),
        0xdc => CbInstr::SetBit(3, Target::H),
        0xdd => CbInstr::SetBit(3, Target::L),
        0xde => CbInstr::SetBit(3, Target::HlIndirect),
        0xdf => CbInstr::SetBit(3, Target::A),
        0xe0 => CbInstr::SetBit(4, Target::B),
        0xe1 => CbInstr::SetBit(4, Target::C),
        0xe2 => CbInstr::SetBit(4, Target::D),
        0xe3 => CbInstr::SetBit(4, Target::E),
        0xe4 => CbInstr::SetBit(4, Target::H),
        0xe5 => CbInstr::SetBit(4, Target::L),
        0xe6 => CbInstr::SetBit(4, Target::HlIndirect),
        0xe7 => CbInstr::SetBit(4, Target::A),
        0xe8 => CbInstr::SetBit(5, Target::B),
        0xe9 => CbInstr::SetBit(5, Target::C),
        0xea => CbInstr::SetBit(5, Target::D),
        0xeb => CbInstr::SetBit(5, Target::E),
        0xec => CbInstr::SetBit(5, Target::H),
        0xed => CbInstr::SetBit(5, Target::L),
        0xee => CbInstr::SetBit(5, Target::HlIndirect),
        0xef => CbInstr::SetBit(5, Target::A),
        0xf0 => CbInstr::SetBit(6, Target::B),
        0xf1 => CbInstr::SetBit(6, Target::C),
        0xf2 => CbInstr::SetBit(6, Target::D),
        0xf3 => CbInstr::SetBit(6, Target::E),
        0xf4 => CbInstr::SetBit(6, Target::H),
        0xf5 => CbInstr::SetBit(6, Target::L),
        0xf6 => CbInstr::SetBit(6, Target::HlIndirect),
        0xf7 => CbInstr::SetBit(6, Target::A),
        0xf8 => CbInstr::SetBit(7, Target::B),
        0xf9 => CbInstr::SetBit(7, Target::C),
        0xfa => CbInstr::SetBit(7, Target::D),
        0xfb => CbInstr::SetBit(7, Target::E),
        0xfc => CbInstr::SetBit(7, Target::H),
        0xfd => CbInstr::SetBit(7, Target::L),
        0xfe => CbInstr::SetBit(7, Target::HlIndirect),
        0xff => CbInstr::SetBit(7, Target::A),
    }
}

/// Exactly eleven opcodes of the first table stand for nothing.
pub proof fn lemma_illegal_opcodes(opcode: u8)
    ensures
        (spec_decode(opcode) == Instr::Illegal) == is_illegal(opcode),
{
    let y = ((opcode / 8) % 8) as int;
    let z = (opcode % 8) as int;
    if opcode / 64 == 3 {
        assert(opcode == 192 + 8 * y + z);
    }
}

} // verus!
