//! The opcode table: a fixed mapping from each of the 256 opcode byte values
//! to an instruction descriptor.
//!
//! A descriptor binds a semantic routine family, an addressing mode, the base
//! cycle count, whether the opcode is documented, and whether a page-boundary
//! crossing during addressing costs one extra cycle (true only for read
//! instructions; stores and read-modify-write instructions carry the penalty
//! unconditionally in their base count, as the hardware does).
//!
//! Undocumented opcodes decode like any others; whether they execute their
//! known combinational behaviour or fall back to multi-byte NOPs is decided
//! at execution time by the engine's configured policy.  The twelve bytes
//! that halt a real 6502 decode to `Op::Jam`.

use vstd::prelude::*;
use crate::registers::StatusFlag;

verus! {

/// An addressing mode of the 6502.
#[derive(Clone, Copy, PartialEq, Eq, Structural, Debug)]
pub enum Mode {
    /// Implied: the operand is fixed by the opcode.
    Imp,
    /// Accumulator: the operand is the accumulator itself.
    Acc,
    /// Immediate: the operand is the byte after the opcode.
    Imm,
    /// Zero page: one operand byte addresses page 0.
    Zp,
    /// Zero page indexed by X, wrapping within page 0.
    ZpX,
    /// Zero page indexed by Y, wrapping within page 0.
    ZpY,
    /// Absolute: two operand bytes give the address.
    Abs,
    /// Absolute indexed by X.
    AbsX,
    /// Absolute indexed by Y.
    AbsY,
    /// Indirect: the operand points at the address (JMP only).
    Ind,
    /// Indexed indirect: (operand + X) in page 0 points at the address.
    IndX,
    /// Indirect indexed: the page-0 operand points at a base, plus Y.
    IndY,
    /// Relative: one signed operand byte offsets the PC (branches).
    Rel,
}

/// One of the three 8-bit data registers.
#[derive(Clone, Copy, PartialEq, Eq, Structural, Debug)]
pub enum Reg {
    A,
    X,
    Y,
}

/// A source or target of a register-to-register transfer.
#[derive(Clone, Copy, PartialEq, Eq, Structural, Debug)]
pub enum TReg {
    A,
    X,
    Y,
    /// The stack pointer.
    S,
}

/// A bitwise operation of the AND/ORA/EOR family.
#[derive(Clone, Copy, PartialEq, Eq, Structural, Debug)]
pub enum LogicKind {
    And,
    Or,
    Xor,
}

/// A shift or rotate direction and fill rule.
#[derive(Clone, Copy, PartialEq, Eq, Structural, Debug)]
pub enum ShiftKind {
    /// Shift left, bit 0 filled with zero.
    Asl,
    /// Shift right, bit 7 filled with zero.
    Lsr,
    /// Rotate left, bit 0 filled from Carry.
    Rol,
    /// Rotate right, bit 7 filled from Carry.
    Ror,
}

/// A semantic routine family.  One variant covers each group of opcodes that
/// share their effect, with the varying register, flag or direction as data.
#[derive(Clone, Copy, PartialEq, Eq, Structural, Debug)]
pub enum Op {
    /// LDA/LDX/LDY: load a register, update NZ.
    Load(Reg),
    /// STA/STX/STY: store a register, no flags.
    Store(Reg),
    /// TAX/TAY/TXA/TYA/TSX/TXS: copy source to target; NZ except into S.
    Transfer(TReg, TReg),
    /// ADC: add with carry; BCD digits when the Decimal flag is set.
    Adc,
    /// SBC: subtract with borrow; BCD digits when the Decimal flag is set.
    Sbc,
    /// AND/ORA/EOR with the accumulator, update NZ.
    Logic(LogicKind),
    /// BIT: Z from A AND operand, N and V from operand bits 7 and 6.
    Bit,
    /// ASL/LSR/ROL/ROR on the accumulator or on memory.
    Shift(ShiftKind),
    /// INC on memory.
    IncMem,
    /// DEC on memory.
    DecMem,
    /// INX/INY.
    IncReg(Reg),
    /// DEX/DEY.
    DecReg(Reg),
    /// CMP/CPX/CPY: compare register with operand; C when register >= operand.
    Compare(Reg),
    /// Branch when the named flag has the given value.
    Branch(StatusFlag, bool),
    /// JMP.
    Jmp,
    /// JSR: push the address of the instruction's last byte, then jump.
    Jsr,
    /// RTS: pop an address and resume one byte past it.
    Rts,
    /// RTI: pop flags, then PCL, then PCH.
    Rti,
    /// BRK: software interrupt through 0xFFFE/0xFFFF with the break bit set.
    Brk,
    /// PHA.
    Pha,
    /// PHP: pushes the flags with bits 4 and 5 set.
    Php,
    /// PLA: pull into A, update NZ.
    Pla,
    /// PLP: pull the flags, ignoring bits 4 and 5.
    Plp,
    /// CLC/SEC/CLI/SEI/CLV/CLD/SED: force the named flag to the given value.
    SetFlagOp(StatusFlag, bool),
    /// NOP of any byte count; undocumented forms still resolve an operand.
    Nop,
    /// Undocumented LAX: load A and X together.
    Lax,
    /// Undocumented SAX: store A AND X.
    Sax,
    /// Undocumented DCP: DEC memory then CMP.
    Dcp,
    /// Undocumented ISB: INC memory then SBC.
    Isb,
    /// Undocumented SLO: ASL memory then ORA.
    Slo,
    /// Undocumented RLA: ROL memory then AND.
    Rla,
    /// Undocumented SRE: LSR memory then EOR.
    Sre,
    /// Undocumented RRA: ROR memory then ADC.
    Rra,
    /// A halt opcode: under the faithful policy the PC does not advance.
    Jam,
}

/// An instruction descriptor: one entry of the opcode table.
#[derive(Clone, Copy, PartialEq, Eq, Structural, Debug)]
pub struct Instr {
    pub op: Op,
    pub mode: Mode,
    /// Base cycle count, before page-crossing and branch penalties.
    pub cycles: u8,
    /// Whether the opcode is part of the documented set.
    pub documented: bool,
    /// Whether a page-boundary crossing costs one extra cycle.
    pub penalty: bool,
}

/// The fixed opcode table: the instruction descriptor each of the 256 opcode
/// byte values decodes to.
#[verifier::opaque]
pub open spec fn spec_decode(code: u8) -> Instr {
    match code {
        0x00 => Instr { op: Op::Brk, mode: Mode::Imp, cycles: 7, documented: true, penalty: false },
        0x01 => Instr { op: Op::Logic(LogicKind::Or), mode: Mode::IndX, cycles: 6, documented: true, penalty: false },
        0x03 => Instr { op: Op::Slo, mode: Mode::IndX, cycles: 8, documented: false, penalty: false },
        0x04 => Instr { op: Op::Nop, mode: Mode::Zp, cycles: 3, documented: false, penalty: false },
        0x05 => Instr { op: Op::Logic(LogicKind::Or), mode: Mode::Zp, cycles: 3, documented: true, penalty: false },
        0x06 => Instr { op: Op::Shift(ShiftKind::Asl), mode: Mode::Zp, cycles: 5, documented: true, penalty: false },
        0x07 => Instr { op: Op::Slo, mode: Mode::Zp, cycles: 5, documented: false, penalty: false },
        0x08 => Instr { op: Op::Php, mode: Mode::Imp, cycles: 3, documented: true, penalty: false },
        0x09 => Instr { op: Op::Logic(LogicKind::Or), mode: Mode::Imm, cycles: 2, documented: true, penalty: false },
        0x0a => Instr { op: Op::Shift(ShiftKind::Asl), mode: Mode::Acc, cycles: 2, documented: true, penalty: false },
        0x0b => Instr { op: Op::Nop, mode: Mode::Imm, cycles: 2, documented: false, penalty: false },
        0x0c => Instr { op: Op::Nop, mode: Mode::Abs, cycles: 4, documented: false, penalty: false },
        0x0d => Instr { op: Op::Logic(LogicKind::Or), mode: Mode::Abs, cycles: 4, documented: true, penalty: false },
        0x0e => Instr { op: Op::Shift(ShiftKind::Asl), mode: Mode::Abs, cycles: 6, documented: true, penalty: false },
        0x0f => Instr { op: Op::Slo, mode: Mode::Abs, cycles: 6, documented: false, penalty: false },
        0x10 => Instr { op: Op::Branch(StatusFlag::Negative, false), mode: Mode::Rel, cycles: 2, documented: true, penalty: false },
        0x11 => Instr { op: Op::Logic(LogicKind::Or), mode: Mode::IndY, cycles: 5, documented: true, penalty: true },
        0x13 => Instr { op: Op::Slo, mode: Mode::IndY, cycles: 8, documented: false, penalty: false },
        0x14 => Instr { op: Op::Nop, mode: Mode::ZpX, cycles: 4, documented: false, penalty: false },
        0x15 => Instr { op: Op::Logic(LogicKind::Or), mode: Mode::ZpX, cycles: 4, documented: true, penalty: false },
        0x16 => Instr { op: Op::Shift(ShiftKind::Asl), mode: Mode::ZpX, cycles: 6, documented: true, penalty: false },
        0x17 => Instr { op: Op::Slo, mode: Mode::ZpX, cycles: 6, documented: false, penalty: false },
        0x18 => Instr { op: Op::SetFlagOp(StatusFlag::Carry, false), mode: Mode::Imp, cycles: 2, documented: true, penalty: false },
        0x19 => Instr { op: Op::Logic(LogicKind::Or), mode: Mode::AbsY, cycles: 4, documented: true, penalty: true },
        0x1a => Instr { op: Op::Nop, mode: Mode::Imp, cycles: 2, documented: false, penalty: false },
        0x1b => Instr { op: Op::Slo, mode: Mode::AbsY, cycles: 7, documented: false, penalty: false },
        0x1c => Instr { op: Op::Nop, mode: Mode::AbsX, cycles: 4, documented: false, penalty: true },
        0x1d => Instr { op: Op::Logic(LogicKind::Or), mode: Mode::AbsX, cycles: 4, documented: true, penalty: true },
        0x1e => Instr { op: Op::Shift(ShiftKind::Asl), mode: Mode::AbsX, cycles: 7, documented: true, penalty: false },
        0x1f => Instr { op: Op::Slo, mode: Mode::AbsX, cycles: 7, documented: false, penalty: false },
        0x20 => Instr { op: Op::Jsr, mode: Mode::Abs, cycles: 6, documented: true, penalty: false },
        0x21 => Instr { op: Op::Logic(LogicKind::And), mode: Mode::IndX, cycles: 6, documented: true, penalty: false },
        0x23 => Instr { op: Op::Rla, mode: Mode::IndX, cycles: 8, documented: false, penalty: false },
        0x24 => Instr { op: Op::Bit, mode: Mode::Zp, cycles: 3, documented: true, penalty: false },
        0x25 => Instr { op: Op::Logic(LogicKind::And), mode: Mode::Zp, cycles: 3, documented: true, penalty: false },
        0x26 => Instr { op: Op::Shift(ShiftKind::Rol), mode: Mode::Zp, cycles: 5, documented: true, penalty: false },
        0x27 => Instr { op: Op::Rla, mode: Mode::Zp, cycles: 5, documented: false, penalty: false },
        0x28 => Instr { op: Op::Plp, mode: Mode::Imp, cycles: 4, documented: true, penalty: false },
        0x29 => Instr { op: Op::Logic(LogicKind::And), mode: Mode::Imm, cycles: 2, documented: true, penalty: false },
        0x2a => Instr { op: Op::Shift(ShiftKind::Rol), mode: Mode::Acc, cycles: 2, documented: true, penalty: false },
        0x2b => Instr { op: Op::Nop, mode: Mode::Imm, cycles: 2, documented: false, penalty: false },
        0x2c => Instr { op: Op::Bit, mode: Mode::Abs, cycles: 4, documented: true, penalty: false },
        0x2d => Instr { op: Op::Logic(LogicKind::And), mode: Mode::Abs, cycles: 4, documented: true, penalty: false },
        0x2e => Instr { op: Op::Shift(ShiftKind::Rol), mode: Mode::Abs, cycles: 6, documented: true, penalty: false },
        0x2f => Instr { op: Op::Rla, mode: Mode::Abs, cycles: 6, documented: false, penalty: false },
        0x30 => Instr { op: Op::Branch(StatusFlag::Negative, true), mode: Mode::Rel, cycles: 2, documented: true, penalty: false },
        0x31 => Instr { op: Op::Logic(LogicKind::And), mode: Mode::IndY, cycles: 5, documented: true, penalty: true },
        0x33 => Instr { op: Op::Rla, mode: Mode::IndY, cycles: 8, documented: false, penalty: false },
        0x34 => Instr { op: Op::Nop, mode: Mode::ZpX, cycles: 4, documented: false, penalty: false },
        0x35 => Instr { op: Op::Logic(LogicKind::And), mode: Mode::ZpX, cycles: 4, documented: true, penalty: false },
        0x36 => Instr { op: Op::Shift(ShiftKind::Rol), mode: Mode::ZpX, cycles: 6, documented: true, penalty: false },
        0x37 => Instr { op: Op::Rla, mode: Mode::ZpX, cycles: 6, documented: false, penalty: false },
        0x38 => Instr { op: Op::SetFlagOp(StatusFlag::Carry, true), mode: Mode::Imp, cycles: 2, documented: true, penalty: false },
        0x39 => Instr { op: Op::Logic(LogicKind::And), mode: Mode::AbsY, cycles: 4, documented: true, penalty: true },
        0x3a => Instr { op: Op::Nop, mode: Mode::Imp, cycles: 2, documented: false, penalty: false },
        0x3b => Instr { op: Op::Rla, mode: Mode::AbsY, cycles: 7, documented: false, penalty: false },
        0x3c => Instr { op: Op::Nop, mode: Mode::AbsX, cycles: 4, documented: false, penalty: true },
        0x3d => Instr { op: Op::Logic(LogicKind::And), mode: Mode::AbsX, cycles: 4, documented: true, penalty: true },
        0x3e => Instr { op: Op::Shift(ShiftKind::Rol), mode: Mode::AbsX, cycles: 7, documented: true, penalty: false },
        0x3f => Instr { op: Op::Rla, mode: Mode::AbsX, cycles: 7, documented: false, penalty: false },
        0x40 => Instr { op: Op::Rti, mode: Mode::Imp, cycles: 6, documented: true, penalty: false },
        0x41 => Instr { op: Op::Logic(LogicKind::Xor), mode: Mode::IndX, cycles: 6, documented: true, penalty: false },
        0x43 => Instr { op: Op::Sre, mode: Mode::IndX, cycles: 8, documented: false, penalty: false },
        0x44 => Instr { op: Op::Nop, mode: Mode::Zp, cycles: 3, documented: false, penalty: false },
        0x45 => Instr { op: Op::Logic(LogicKind::Xor), mode: Mode::Zp, cycles: 3, documented: true, penalty: false },
        0x46 => Instr { op: Op::Shift(ShiftKind::Lsr), mode: Mode::Zp, cycles: 5, documented: true, penalty: false },
        0x47 => Instr { op: Op::Sre, mode: Mode::Zp, cycles: 5, documented: false, penalty: false },
        0x48 => Instr { op: Op::Pha, mode: Mode::Imp, cycles: 3, documented: true, penalty: false },
        0x49 => Instr { op: Op::Logic(LogicKind::Xor), mode: Mode::Imm, cycles: 2, documented: true, penalty: false },
        0x4a => Instr { op: Op::Shift(ShiftKind::Lsr), mode: Mode::Acc, cycles: 2, documented: true, penalty: false },
        0x4b => Instr { op: Op::Nop, mode: Mode::Imm, cycles: 2, documented: false, penalty: false },
        0x4c => Instr { op: Op::Jmp, mode: Mode::Abs, cycles: 3, documented: true, penalty: false },
        0x4d => Instr { op: Op::Logic(LogicKind::Xor), mode: Mode::Abs, cycles: 4, documented: true, penalty: false },
        0x4e => Instr { op: Op::Shift(ShiftKind::Lsr), mode: Mode::Abs, cycles: 6, documented: true, penalty: false },
        0x4f => Instr { op: Op::Sre, mode: Mode::Abs, cycles: 6, documented: false, penalty: false },
        0x50 => Instr { op: Op::Branch(StatusFlag::Overflow, false), mode: Mode::Rel, cycles: 2, documented: true, penalty: false },
        0x51 => Instr { op: Op::Logic(LogicKind::Xor), mode: Mode::IndY, cycles: 5, documented: true, penalty: true },
        0x53 => Instr { op: Op::Sre, mode: Mode::IndY, cycles: 8, documented: false, penalty: false },
        0x54 => Instr { op: Op::Nop, mode: Mode::ZpX, cycles: 4, documented: false, penalty: false },
        0x55 => Instr { op: Op::Logic(LogicKind::Xor), mode: Mode::ZpX, cycles: 4, documented: true, penalty: false },
        0x56 => Instr { op: Op::Shift(ShiftKind::Lsr), mode: Mode::ZpX, cycles: 6, documented: true, penalty: false },
        0x57 => Instr { op: Op::Sre, mode: Mode::ZpX, cycles: 6, documented: false, penalty: false },
        0x58 => Instr { op: Op::SetFlagOp(StatusFlag::InterruptDisable, false), mode: Mode::Imp, cycles: 2, documented: true, penalty: false },
        0x59 => Instr { op: Op::Logic(LogicKind::Xor), mode: Mode::AbsY, cycles: 4, documented: true, penalty: true },
        0x5a => Instr { op: Op::Nop, mode: Mode::Imp, cycles: 2, documented: false, penalty: false },
        0x5b => Instr { op: Op::Sre, mode: Mode::AbsY, cycles: 7, documented: false, penalty: false },
        0x5c => Instr { op: Op::Nop, mode: Mode::AbsX, cycles: 4, documented: false, penalty: true },
        0x5d => Instr { op: Op::Logic(LogicKind::Xor), mode: Mode::AbsX, cycles: 4, documented: true, penalty: true },
        0x5e => Instr { op: Op::Shift(ShiftKind::Lsr), mode: Mode::AbsX, cycles: 7, documented: true, penalty: false },
        0x5f => Instr { op: Op::Sre, mode: Mode::AbsX, cycles: 7, documented: false, penalty: false },
        0x60 => Instr { op: Op::Rts, mode: Mode::Imp, cycles: 6, documented: true, penalty: false },
        0x61 => Instr { op: Op::Adc, mode: Mode::IndX, cycles: 6, documented: true, penalty: false },
        0x63 => Instr { op: Op::Rra, mode: Mode::IndX, cycles: 8, documented: false, penalty: false },
        0x64 => Instr { op: Op::Nop, mode: Mode::Zp, cycles: 3, documented: false, penalty: false },
        0x65 => Instr { op: Op::Adc, mode: Mode::Zp, cycles: 3, documented: true, penalty: false },
        0x66 => Instr { op: Op::Shift(ShiftKind::Ror), mode: Mode::Zp, cycles: 5, documented: true, penalty: false },
        0x67 => Instr { op: Op::Rra, mode: Mode::Zp, cycles: 5, documented: false, penalty: false },
        0x68 => Instr { op: Op::Pla, mode: Mode::Imp, cycles: 4, documented: true, penalty: false },
        0x69 => Instr { op: Op::Adc, mode: Mode::Imm, cycles: 2, documented: true, penalty: false },
        0x6a => Instr { op: Op::Shift(ShiftKind::Ror), mode: Mode::Acc, cycles: 2, documented: true, penalty: false },
        0x6b => Instr { op: Op::Nop, mode: Mode::Imm, cycles: 2, documented: false, penalty: false },
        0x6c => Instr { op: Op::Jmp, mode: Mode::Ind, cycles: 5, documented: true, penalty: false },
        0x6d => Instr { op: Op::Adc, mode: Mode::Abs, cycles: 4, documented: true, penalty: false },
        0x6e => Instr { op: Op::Shift(ShiftKind::Ror), mode: Mode::Abs, cycles: 6, documented: true, penalty: false },
        0x6f => Instr { op: Op::Rra, mode: Mode::Abs, cycles: 6, documented: false, penalty: false },
        0x70 => Instr { op: Op::Branch(StatusFlag::Overflow, true), mode: Mode::Rel, cycles: 2, documented: true, penalty: false },
        0x71 => Instr { op: Op::Adc, mode: Mode::IndY, cycles: 5, documented: true, penalty: true },
        0x73 => Instr { op: Op::Rra, mode: Mode::IndY, cycles: 8, documented: false, penalty: false },
        0x74 => Instr { op: Op::Nop, mode: Mode::ZpX, cycles: 4, documented: false, penalty: false },
        0x75 => Instr { op: Op::Adc, mode: Mode::ZpX, cycles: 4, documented: true, penalty: false },
        0x76 => Instr { op: Op::Shift(ShiftKind::Ror), mode: Mode::ZpX, cycles: 6, documented: true, penalty: false },
        0x77 => Instr { op: Op::Rra, mode: Mode::ZpX, cycles: 6, documented: false, penalty: false },
        0x78 => Instr { op: Op::SetFlagOp(StatusFlag::InterruptDisable, true), mode: Mode::Imp, cycles: 2, documented: true, penalty: false },
        0x79 => Instr { op: Op::Adc, mode: Mode::AbsY, cycles: 4, documented: true, penalty: true },
        0x7a => Instr { op: Op::Nop, mode: Mode::Imp, cycles: 2, documented: false, penalty: false },
        0x7b => Instr { op: Op::Rra, mode: Mode::AbsY, cycles: 7, documented: false, penalty: false },
        0x7c => Instr { op: Op::Nop, mode: Mode::AbsX, cycles: 4, documented: false, penalty: true },
        0x7d => Instr { op: Op::Adc, mode: Mode::AbsX, cycles: 4, documented: true, penalty: true },
        0x7e => Instr { op: Op::Shift(ShiftKind::Ror), mode: Mode::AbsX, cycles: 7, documented: true, penalty: false },
        0x7f => Instr { op: Op::Rra, mode: Mode::AbsX, cycles: 7, documented: false, penalty: false },
        0x80 => Instr { op: Op::Nop, mode: Mode::Imm, cycles: 2, documented: false, penalty: false },
        0x81 => Instr { op: Op::Store(Reg::A), mode: Mode::IndX, cycles: 6, documented: true, penalty: false },
        0x82 => Instr { op: Op::Nop, mode: Mode::Imm, cycles: 2, documented: false, penalty: false },
        0x83 => Instr { op: Op::Sax, mode: Mode::IndX, cycles: 6, documented: false, penalty: false },
        0x84 => Instr { op: Op::Store(Reg::Y), mode: Mode::Zp, cycles: 3, documented: true, penalty: false },
        0x85 => Instr { op: Op::Store(Reg::A), mode: Mode::Zp, cycles: 3, documented: true, penalty: false },
        0x86 => Instr { op: Op::Store(Reg::X), mode: Mode::Zp, cycles: 3, documented: true, penalty: false },
        0x87 => Instr { op: Op::Sax, mode: Mode::Zp, cycles: 3, documented: false, penalty: false },
        0x88 => Instr { op: Op::DecReg(Reg::Y), mode: Mode::Imp, cycles: 2, documented: true, penalty: false },
        0x89 => Instr { op: Op::Nop, mode: Mode::Imm, cycles: 2, documented: false, penalty: false },
        0x8a => Instr { op: Op::Transfer(TReg::X, TReg::A), mode: Mode::Imp, cycles: 2, documented: true, penalty: false },
        0x8b => Instr { op: Op::Nop, mode: Mode::Imm, cycles: 2, documented: false, penalty: false },
        0x8c => Instr { op: Op::Store(Reg::Y), mode: Mode::Abs, cycles: 4, documented: true, penalty: false },
        0x8d => Instr { op: Op::Store(Reg::A), mode: Mode::Abs, cycles: 4, documented: true, penalty: false },
        0x8e => Instr { op: Op::Store(Reg::X), mode: Mode::Abs, cycles: 4, documented: true, penalty: false },
        0x8f => Instr { op: Op::Sax, mode: Mode::Abs, cycles: 4, documented: false, penalty: false },
        0x90 => Instr { op: Op::Branch(StatusFlag::Carry, false), mode: Mode::Rel, cycles: 2, documented: true, penalty: false },
        0x91 => Instr { op: Op::Store(Reg::A), mode: Mode::IndY, cycles: 6, documented: true, penalty: false },
        0x93 => Instr { op: Op::Nop, mode: Mode::IndY, cycles: 6, documented: false, penalty: false },
        0x94 => Instr { op: Op::Store(Reg::Y), mode: Mode::ZpX, cycles: 4, documented: true, penalty: false },
        0x95 => Instr { op: Op::Store(Reg::A), mode: Mode::ZpX, cycles: 4, documented: true, penalty: false },
        0x96 => Instr { op: Op::Store(Reg::X), mode: Mode::ZpY, cycles: 4, documented: true, penalty: false },
        0x97 => Instr { op: Op::Sax, mode: Mode::ZpY, cycles: 4, documented: false, penalty: false },
        0x98 => Instr { op: Op::Transfer(TReg::Y, TReg::A), mode: Mode::Imp, cycles: 2, documented: true, penalty: false },
        0x99 => Instr { op: Op::Store(Reg::A), mode: Mode::AbsY, cycles: 5, documented: true, penalty: false },
        0x9a => Instr { op: Op::Transfer(TReg::X, TReg::S), mode: Mode::Imp, cycles: 2, documented: true, penalty: false },
        0x9b => Instr { op: Op::Nop, mode: Mode::AbsY, cycles: 5, documented: false, penalty: false },
        0x9c => Instr { op: Op::Nop, mode: Mode::AbsX, cycles: 5, documented: false, penalty: false },
        0x9d => Instr { op: Op::Store(Reg::A), mode: Mode::AbsX, cycles: 5, documented: true, penalty: false },
        0x9e => Instr { op: Op::Nop, mode: Mode::AbsY, cycles: 5, documented: false, penalty: false },
        0x9f => Instr { op: Op::Nop, mode: Mode::AbsY, cycles: 5, documented: false, penalty: false },
        0xa0 => Instr { op: Op::Load(Reg::Y), mode: Mode::Imm, cycles: 2, documented: true, penalty: false },
        0xa1 => Instr { op: Op::Load(Reg::A), mode: Mode::IndX, cycles: 6, documented: true, penalty: false },
        0xa2 => Instr { op: Op::Load(Reg::X), mode: Mode::Imm, cycles: 2, documented: true, penalty: false },
        0xa3 => Instr { op: Op::Lax, mode: Mode::IndX, cycles: 6, documented: false, penalty: false },
        0xa4 => Instr { op: Op::Load(Reg::Y), mode: Mode::Zp, cycles: 3, documented: true, penalty: false },
        0xa5 => Instr { op: Op::Load(Reg::A), mode: Mode::Zp, cycles: 3, documented: true, penalty: false },
        0xa6 => Instr { op: Op::Load(Reg::X), mode: Mode::Zp, cycles: 3, documented: true, penalty: false },
        0xa7 => Instr { op: Op::Lax, mode: Mode::Zp, cycles: 3, documented: false, penalty: false },
        0xa8 => Instr { op: Op::Transfer(TReg::A, TReg::Y), mode: Mode::Imp, cycles: 2, documented: true, penalty: false },
        0xa9 => Instr { op: Op::Load(Reg::A), mode: Mode::Imm, cycles: 2, documented: true, penalty: false },
        0xaa => Instr { op: Op::Transfer(TReg::A, TReg::X), mode: Mode::Imp, cycles: 2, documented: true, penalty: false },
        0xab => Instr { op: Op::Nop, mode: Mode::Imm, cycles: 2, documented: false, penalty: false },
        0xac => Instr { op: Op::Load(Reg::Y), mode: Mode::Abs, cycles: 4, documented: true, penalty: false },
        0xad => Instr { op: Op::Load(Reg::A), mode: Mode::Abs, cycles: 4, documented: true, penalty: false },
        0xae => Instr { op: Op::Load(Reg::X), mode: Mode::Abs, cycles: 4, documented: true, penalty: false },
        0xaf => Instr { op: Op::Lax, mode: Mode::Abs, cycles: 4, documented: false, penalty: false },
        0xb0 => Instr { op: Op::Branch(StatusFlag::Carry, true), mode: Mode::Rel, cycles: 2, documented: true, penalty: false },
        0xb1 => Instr { op: Op::Load(Reg::A), mode: Mode::IndY, cycles: 5, documented: true, penalty: true },
        0xb3 => Instr { op: Op::Lax, mode: Mode::IndY, cycles: 5, documented: false, penalty: true },
        0xb4 => Instr { op: Op::Load(Reg::Y), mode: Mode::ZpX, cycles: 4, documented: true, penalty: false },
        0xb5 => Instr { op: Op::Load(Reg::A), mode: Mode::ZpX, cycles: 4, documented: true, penalty: false },
        0xb6 => Instr { op: Op::Load(Reg::X), mode: Mode::ZpY, cycles: 4, documented: true, penalty: false },
        0xb7 => Instr { op: Op::Lax, mode: Mode::ZpY, cycles: 4, documented: false, penalty: false },
        0xb8 => Instr { op: Op::SetFlagOp(StatusFlag::Overflow, false), mode: Mode::Imp, cycles: 2, documented: true, penalty: false },
        0xb9 => Instr { op: Op::Load(Reg::A), mode: Mode::AbsY, cycles: 4, documented: true, penalty: true },
        0xba => Instr { op: Op::Transfer(TReg::S, TReg::X), mode: Mode::Imp, cycles: 2, documented: true, penalty: false },
        0xbb => Instr { op: Op::Nop, mode: Mode::AbsY, cycles: 4, documented: false, penalty: true },
        0xbc => Instr { op: Op::Load(Reg::Y), mode: Mode::AbsX, cycles: 4, documented: true, penalty: true },
        0xbd => Instr { op: Op::Load(Reg::A), mode: Mode::AbsX, cycles: 4, documented: true, penalty: true },
        0xbe => Instr { op: Op::Load(Reg::X), mode: Mode::AbsY, cycles: 4, documented: true, penalty: true },
        0xbf => Instr { op: Op::Lax, mode: Mode::AbsY, cycles: 4, documented: false, penalty: true },
        0xc0 => Instr { op: Op::Compare(Reg::Y), mode: Mode::Imm, cycles: 2, documented: true, penalty: false },
        0xc1 => Instr { op: Op::Compare(Reg::A), mode: Mode::IndX, cycles: 6, documented: true, penalty: false },
        0xc2 => Instr { op: Op::Nop, mode: Mode::Imm, cycles: 2, documented: false, penalty: false },
        0xc3 => Instr { op: Op::Dcp, mode: Mode::IndX, cycles: 8, documented: false, penalty: false },
        0xc4 => Instr { op: Op::Compare(Reg::Y), mode: Mode::Zp, cycles: 3, documented: true, penalty: false },
        0xc5 => Instr { op: Op::Compare(Reg::A), mode: Mode::Zp, cycles: 3, documented: true, penalty: false },
        0xc6 => Instr { op: Op::DecMem, mode: Mode::Zp, cycles: 5, documented: true, penalty: false },
        0xc7 => Instr { op: Op::Dcp, mode: Mode::Zp, cycles: 5, documented: false, penalty: false },
        0xc8 => Instr { op: Op::IncReg(Reg::Y), mode: Mode::Imp, cycles: 2, documented: true, penalty: false },
        0xc9 => Instr { op: Op::Compare(Reg::A), mode: Mode::Imm, cycles: 2, documented: true, penalty: false },
        0xca => Instr { op: Op::DecReg(Reg::X), mode: Mode::Imp, cycles: 2, documented: true, penalty: false },
        0xcb => Instr { op: Op::Nop, mode: Mode::Imm, cycles: 2, documented: false, penalty: false },
        0xcc => Instr { op: Op::Compare(Reg::Y), mode: Mode::Abs, cycles: 4, documented: true, penalty: false },
        0xcd => Instr { op: Op::Compare(Reg::A), mode: Mode::Abs, cycles: 4, documented: true, penalty: false },
        0xce => Instr { op: Op::DecMem, mode: Mode::Abs, cycles: 6, documented: true, penalty: false },
        0xcf => Instr { op: Op::Dcp, mode: Mode::Abs, cycles: 6, documented: false, penalty: false },
        0xd0 => Instr { op: Op::Branch(StatusFlag::Zero, false), mode: Mode::Rel, cycles: 2, documented: true, penalty: false },
        0xd1 => Instr { op: Op::Compare(Reg::A), mode: Mode::IndY, cycles: 5, documented: true, penalty: true },
        0xd3 => Instr { op: Op::Dcp, mode: Mode::IndY, cycles: 8, documented: false, penalty: false },
        0xd4 => Instr { op: Op::Nop, mode: Mode::ZpX, cycles: 4, documented: false, penalty: false },
        0xd5 => Instr { op: Op::Compare(Reg::A), mode: Mode::ZpX, cycles: 4, documented: true, penalty: false },
        0xd6 => Instr { op: Op::DecMem, mode: Mode::ZpX, cycles: 6, documented: true, penalty: false },
        0xd7 => Instr { op: Op::Dcp, mode: Mode::ZpX, cycles: 6, documented: false, penalty: false },
        0xd8 => Instr { op: Op::SetFlagOp(StatusFlag::Decimal, false), mode: Mode::Imp, cycles: 2, documented: true, penalty: false },
        0xd9 => Instr { op: Op::Compare(Reg::A), mode: Mode::AbsY, cycles: 4, documented: true, penalty: true },
        0xda => Instr { op: Op::Nop, mode: Mode::Imp, cycles: 2, documented: false, penalty: false },
        0xdb => Instr { op: Op::Dcp, mode: Mode::AbsY, cycles: 7, documented: false, penalty: false },
        0xdc => Instr { op: Op::Nop, mode: Mode::AbsX, cycles: 4, documented: false, penalty: true },
        0xdd => Instr { op: Op::Compare(Reg::A), mode: Mode::AbsX, cycles: 4, documented: true, penalty: true },
        0xde => Instr { op: Op::DecMem, mode: Mode::AbsX, cycles: 7, documented: true, penalty: false },
        0xdf => Instr { op: Op::Dcp, mode: Mode::AbsX, cycles: 7, documented: false, penalty: false },
        0xe0 => Instr { op: Op::Compare(Reg::X), mode: Mode::Imm, cycles: 2, documented: true, penalty: false },
        0xe1 => Instr { op: Op::Sbc, mode: Mode::IndX, cycles: 6, documented: true, penalty: false },
        0xe2 => Instr { op: Op::Nop, mode: Mode::Imm, cycles: 2, documented: false, penalty: false },
        0xe3 => Instr { op: Op::Isb, mode: Mode::IndX, cycles: 8, documented: false, penalty: false },
        0xe4 => Instr { op: Op::Compare(Reg::X), mode: Mode::Zp, cycles: 3, documented: true, penalty: false },
        0xe5 => Instr { op: Op::Sbc, mode: Mode::Zp, cycles: 3, documented: true, penalty: false },
        0xe6 => Instr { op: Op::IncMem, mode: Mode::Zp, cycles: 5, documented: true, penalty: false },
        0xe7 => Instr { op: Op::Isb, mode: Mode::Zp, cycles: 5, documented: false, penalty: false },
        0xe8 => Instr { op: Op::IncReg(Reg::X), mode: Mode::Imp, cycles: 2, documented: true, penalty: false },
        0xe9 => Instr { op: Op::Sbc, mode: Mode::Imm, cycles: 2, documented: true, penalty: false },
        0xea => Instr { op: Op::Nop, mode: Mode::Imp, cycles: 2, documented: true, penalty: false },
        0xeb => Instr { op: Op::Sbc, mode: Mode::Imm, cycles: 2, documented: false, penalty: false },
        0xec => Instr { op: Op::Compare(Reg::X), mode: Mode::Abs, cycles: 4, documented: true, penalty: false },
        0xed => Instr { op: Op::Sbc, mode: Mode::Abs, cycles: 4, documented: true, penalty: false },
        0xee => Instr { op: Op::IncMem, mode: Mode::Abs, cycles: 6, documented: true, penalty: false },
        0xef => Instr { op: Op::Isb, mode: Mode::Abs, cycles: 6, documented: false, penalty: false },
        0xf0 => Instr { op: Op::Branch(StatusFlag::Zero, true), mode: Mode::Rel, cycles: 2, documented: true, penalty: false },
        0xf1 => Instr { op: Op::Sbc, mode: Mode::IndY, cycles: 5, documented: true, penalty: true },
        0xf3 => Instr { op: Op::Isb, mode: Mode::IndY, cycles: 8, documented: false, penalty: false },
        0xf4 => Instr { op: Op::Nop, mode: Mode::ZpX, cycles: 4, documented: false, penalty: false },
        0xf5 => Instr { op: Op::Sbc, mode: Mode::ZpX, cycles: 4, documented: true, penalty: false },
        0xf6 => Instr { op: Op::IncMem, mode: Mode::ZpX, cycles: 6, documented: true, penalty: false },
        0xf7 => Instr { op: Op::Isb, mode: Mode::ZpX, cycles: 6, documented: false, penalty: false },
        0xf8 => Instr { op: Op::SetFlagOp(StatusFlag::Decimal, true), mode: Mode::Imp, cycles: 2, documented: true, penalty: false },
        0xf9 => Instr { op: Op::Sbc, mode: Mode::AbsY, cycles: 4, documented: true, penalty: true },
        0xfa => Instr { op: Op::Nop, mode: Mode::Imp, cycles: 2, documented: false, penalty: false },
        0xfb => Instr { op: Op::Isb, mode: Mode::AbsY, cycles: 7, documented: false, penalty: false },
        0xfc => Instr { op: Op::Nop, mode: Mode::AbsX, cycles: 4, documented: false, penalty: true },
        0xfd => Instr { op: Op::Sbc, mode: Mode::AbsX, cycles: 4, documented: true, penalty: true },
        0xfe => Instr { op: Op::IncMem, mode: Mode::AbsX, cycles: 7, documented: true, penalty: false },
        0xff => Instr { op: Op::Isb, mode: Mode::AbsX, cycles: 7, documented: false, penalty: false },
        _ => (Instr { op: Op::Jam, mode: Mode::Imp, cycles: 2, documented: false, penalty: false }),
    }
}

/// Decodes one opcode byte against the fixed opcode table.
pub fn decode(code: u8) -> (i: Instr)
    ensures
        i == spec_decode(code),
        i.cycles <= 8,
{
    proof {
        reveal(spec_decode);
    }
    match code {
        0x00 => Instr { op: Op::Brk, mode: Mode::Imp, cycles: 7, documented: true, penalty: false },
        0x01 => Instr { op: Op::Logic(LogicKind::Or), mode: Mode::IndX, cycles: 6, documented: true, penalty: false },
        0x03 => Instr { op: Op::Slo, mode: Mode::IndX, cycles: 8, documented: false, penalty: false },
        0x04 => Instr { op: Op::Nop, mode: Mode::Zp, cycles: 3, documented: false, penalty: false },
        0x05 => Instr { op: Op::Logic(LogicKind::Or), mode: Mode::Zp, cycles: 3, documented: true, penalty: false },
        0x06 => Instr { op: Op::Shift(ShiftKind::Asl), mode: Mode::Zp, cycles: 5, documented: true, penalty: false },
        0x07 => Instr { op: Op::Slo, mode: Mode::Zp, cycles: 5, documented: false, penalty: false },
        0x08 => Instr { op: Op::Php, mode: Mode::Imp, cycles: 3, documented: true, penalty: false },
        0x09 => Instr { op: Op::Logic(LogicKind::Or), mode: Mode::Imm, cycles: 2, documented: true, penalty: false },
        0x0a => Instr { op: Op::Shift(ShiftKind::Asl), mode: Mode::Acc, cycles: 2, documented: true, penalty: false },
        0x0b => Instr { op: Op::Nop, mode: Mode::Imm, cycles: 2, documented: false, penalty: false },
        0x0c => Instr { op: Op::Nop, mode: Mode::Abs, cycles: 4, documented: false, penalty: false },
        0x0d => Instr { op: Op::Logic(LogicKind::Or), mode: Mode::Abs, cycles: 4, documented: true, penalty: false },
        0x0e => Instr { op: Op::Shift(ShiftKind::Asl), mode: Mode::Abs, cycles: 6, documented: true, penalty: false },
        0x0f => Instr { op: Op::Slo, mode: Mode::Abs, cycles: 6, documented: false, penalty: false },
        0x10 => Instr { op: Op::Branch(StatusFlag::Negative, false), mode: Mode::Rel, cycles: 2, documented: true, penalty: false },
        0x11 => Instr { op: Op::Logic(LogicKind::Or), mode: Mode::IndY, cycles: 5, documented: true, penalty: true },
        0x13 => Instr { op: Op::Slo, mode: Mode::IndY, cycles: 8, documented: false, penalty: false },
        0x14 => Instr { op: Op::Nop, mode: Mode::ZpX, cycles: 4, documented: false, penalty: false },
        0x15 => Instr { op: Op::Logic(LogicKind::Or), mode: Mode::ZpX, cycles: 4, documented: true, penalty: false },
        0x16 => Instr { op: Op::Shift(ShiftKind::Asl), mode: Mode::ZpX, cycles: 6, documented: true, penalty: false },
        0x17 => Instr { op: Op::Slo, mode: Mode::ZpX, cycles: 6, documented: false, penalty: false },
        0x18 => Instr { op: Op::SetFlagOp(StatusFlag::Carry, false), mode: Mode::Imp, cycles: 2, documented: true, penalty: false },
        0x19 => Instr { op: Op::Logic(LogicKind::Or), mode: Mode::AbsY, cycles: 4, documented: true, penalty: true },
        0x1a => Instr { op: Op::Nop, mode: Mode::Imp, cycles: 2, documented: false, penalty: false },
        0x1b => Instr { op: Op::Slo, mode: Mode::AbsY, cycles: 7, documented: false, penalty: false },
        0x1c => Instr { op: Op::Nop, mode: Mode::AbsX, cycles: 4, documented: false, penalty: true },
        0x1d => Instr { op: Op::Logic(LogicKind::Or), mode: Mode::AbsX, cycles: 4, documented: true, penalty: true },
        0x1e => Instr { op: Op::Shift(ShiftKind::Asl), mode: Mode::AbsX, cycles: 7, documented: true, penalty: false },
        0x1f => Instr { op: Op::Slo, mode: Mode::AbsX, cycles: 7, documented: false, penalty: false },
        0x20 => Instr { op: Op::Jsr, mode: Mode::Abs, cycles: 6, documented: true, penalty: false },
        0x21 => Instr { op: Op::Logic(LogicKind::And), mode: Mode::IndX, cycles: 6, documented: true, penalty: false },
        0x23 => Instr { op: Op::Rla, mode: Mode::IndX, cycles: 8, documented: false, penalty: false },
        0x24 => Instr { op: Op::Bit, mode: Mode::Zp, cycles: 3, documented: true, penalty: false },
        0x25 => Instr { op: Op::Logic(LogicKind::And), mode: Mode::Zp, cycles: 3, documented: true, penalty: false },
        0x26 => Instr { op: Op::Shift(ShiftKind::Rol), mode: Mode::Zp, cycles: 5, documented: true, penalty: false },
        0x27 => Instr { op: Op::Rla, mode: Mode::Zp, cycles: 5, documented: false, penalty: false },
        0x28 => Instr { op: Op::Plp, mode: Mode::Imp, cycles: 4, documented: true, penalty: false },
        0x29 => Instr { op: Op::Logic(LogicKind::And), mode: Mode::Imm, cycles: 2, documented: true, penalty: false },
        0x2a => Instr { op: Op::Shift(ShiftKind::Rol), mode: Mode::Acc, cycles: 2, documented: true, penalty: false },
        0x2b => Instr { op: Op::Nop, mode: Mode::Imm, cycles: 2, documented: false, penalty: false },
        0x2c => Instr { op: Op::Bit, mode: Mode::Abs, cycles: 4, documented: true, penalty: false },
        0x2d => Instr { op: Op::Logic(LogicKind::And), mode: Mode::Abs, cycles: 4, documented: true, penalty: false },
        0x2e => Instr { op: Op::Shift(ShiftKind::Rol), mode: Mode::Abs, cycles: 6, documented: true, penalty: false },
        0x2f => Instr { op: Op::Rla, mode: Mode::Abs, cycles: 6, documented: false, penalty: false },
        0x30 => Instr { op: Op::Branch(StatusFlag::Negative, true), mode: Mode::Rel, cycles: 2, documented: true, penalty: false },
        0x31 => Instr { op: Op::Logic(LogicKind::And), mode: Mode::IndY, cycles: 5, documented: true, penalty: true },
        0x33 => Instr { op: Op::Rla, mode: Mode::IndY, cycles: 8, documented: false, penalty: false },
        0x34 => Instr { op: Op::Nop, mode: Mode::ZpX, cycles: 4, documented: false, penalty: false },
        0x35 => Instr { op: Op::Logic(LogicKind::And), mode: Mode::ZpX, cycles: 4, documented: true, penalty: false },
        0x36 => Instr { op: Op::Shift(ShiftKind::Rol), mode: Mode::ZpX, cycles: 6, documented: true, penalty: false },
        0x37 => Instr { op: Op::Rla, mode: Mode::ZpX, cycles: 6, documented: false, penalty: false },
        0x38 => Instr { op: Op::SetFlagOp(StatusFlag::Carry, true), mode: Mode::Imp, cycles: 2, documented: true, penalty: false },
        0x39 => Instr { op: Op::Logic(LogicKind::And), mode: Mode::AbsY, cycles: 4, documented: true, penalty: true },
        0x3a => Instr { op: Op::Nop, mode: Mode::Imp, cycles: 2, documented: false, penalty: false },
        0x3b => Instr { op: Op::Rla, mode: Mode::AbsY, cycles: 7, documented: false, penalty: false },
        0x3c => Instr { op: Op::Nop, mode: Mode::AbsX, cycles: 4, documented: false, penalty: true },
        0x3d => Instr { op: Op::Logic(LogicKind::And), mode: Mode::AbsX, cycles: 4, documented: true, penalty: true },
        0x3e => Instr { op: Op::Shift(ShiftKind::Rol), mode: Mode::AbsX, cycles: 7, documented: true, penalty: false },
        0x3f => Instr { op: Op::Rla, mode: Mode::AbsX, cycles: 7, documented: false, penalty: false },
        0x40 => Instr { op: Op::Rti, mode: Mode::Imp, cycles: 6, documented: true, penalty: false },
        0x41 => Instr { op: Op::Logic(LogicKind::Xor), mode: Mode::IndX, cycles: 6, documented: true, penalty: false },
        0x43 => Instr { op: Op::Sre, mode: Mode::IndX, cycles: 8, documented: false, penalty: false },
        0x44 => Instr { op: Op::Nop, mode: Mode::Zp, cycles: 3, documented: false, penalty: false },
        0x45 => Instr { op: Op::Logic(LogicKind::Xor), mode: Mode::Zp, cycles: 3, documented: true, penalty: false },
        0x46 => Instr { op: Op::Shift(ShiftKind::Lsr), mode: Mode::Zp, cycles: 5, documented: true, penalty: false },
        0x47 => Instr { op: Op::Sre, mode: Mode::Zp, cycles: 5, documented: false, penalty: false },
        0x48 => Instr { op: Op::Pha, mode: Mode::Imp, cycles: 3, documented: true, penalty: false },
        0x49 => Instr { op: Op::Logic(LogicKind::Xor), mode: Mode::Imm, cycles: 2, documented: true, penalty: false },
        0x4a => Instr { op: Op::Shift(ShiftKind::Lsr), mode: Mode::Acc, cycles: 2, documented: true, penalty: false },
        0x4b => Instr { op: Op::Nop, mode: Mode::Imm, cycles: 2, documented: false, penalty: false },
        0x4c => Instr { op: Op::Jmp, mode: Mode::Abs, cycles: 3, documented: true, penalty: false },
        0x4d => Instr { op: Op::Logic(LogicKind::Xor), mode: Mode::Abs, cycles: 4, documented: true, penalty: false },
        0x4e => Instr { op: Op::Shift(ShiftKind::Lsr), mode: Mode::Abs, cycles: 6, documented: true, penalty: false },
        0x4f => Instr { op: Op::Sre, mode: Mode::Abs, cycles: 6, documented: false, penalty: false },
        0x50 => Instr { op: Op::Branch(StatusFlag::Overflow, false), mode: Mode::Rel, cycles: 2, documented: true, penalty: false },
        0x51 => Instr { op: Op::Logic(LogicKind::Xor), mode: Mode::IndY, cycles: 5, documented: true, penalty: true },
        0x53 => Instr { op: Op::Sre, mode: Mode::IndY, cycles: 8, documented: false, penalty: false },
        0x54 => Instr { op: Op::Nop, mode: Mode::ZpX, cycles: 4, documented: false, penalty: false },
        0x55 => Instr { op: Op::Logic(LogicKind::Xor), mode: Mode::ZpX, cycles: 4, documented: true, penalty: false },
        0x56 => Instr { op: Op::Shift(ShiftKind::Lsr), mode: Mode::ZpX, cycles: 6, documented: true, penalty: false },
        0x57 => Instr { op: Op::Sre, mode: Mode::ZpX, cycles: 6, documented: false, penalty: false },
        0x58 => Instr { op: Op::SetFlagOp(StatusFlag::InterruptDisable, false), mode: Mode::Imp, cycles: 2, documented: true, penalty: false },
        0x59 => Instr { op: Op::Logic(LogicKind::Xor), mode: Mode::AbsY, cycles: 4, documented: true, penalty: true },
        0x5a => Instr { op: Op::Nop, mode: Mode::Imp, cycles: 2, documented: false, penalty: false },
        0x5b => Instr { op: Op::Sre, mode: Mode::AbsY, cycles: 7, documented: false, penalty: false },
        0x5c => Instr { op: Op::Nop, mode: Mode::AbsX, cycles: 4, documented: false, penalty: true },
        0x5d => Instr { op: Op::Logic(LogicKind::Xor), mode: Mode::AbsX, cycles: 4, documented: true, penalty: true },
        0x5e => Instr { op: Op::Shift(ShiftKind::Lsr), mode: Mode::AbsX, cycles: 7, documented: true, penalty: false },
        0x5f => Instr { op: Op::Sre, mode: Mode::AbsX, cycles: 7, documented: false, penalty: false },
        0x60 => Instr { op: Op::Rts, mode: Mode::Imp, cycles: 6, documented: true, penalty: false },
        0x61 => Instr { op: Op::Adc, mode: Mode::IndX, cycles: 6, documented: true, penalty: false },
        0x63 => Instr { op: Op::Rra, mode: Mode::IndX, cycles: 8, documented: false, penalty: false },
        0x64 => Instr { op: Op::Nop, mode: Mode::Zp, cycles: 3, documented: false, penalty: false },
        0x65 => Instr { op: Op::Adc, mode: Mode::Zp, cycles: 3, documented: true, penalty: false },
        0x66 => Instr { op: Op::Shift(ShiftKind::Ror), mode: Mode::Zp, cycles: 5, documented: true, penalty: false },
        0x67 => Instr { op: Op::Rra, mode: Mode::Zp, cycles: 5, documented: false, penalty: false },
        0x68 => Instr { op: Op::Pla, mode: Mode::Imp, cycles: 4, documented: true, penalty: false },
        0x69 => Instr { op: Op::Adc, mode: Mode::Imm, cycles: 2, documented: true, penalty: false },
        0x6a => Instr { op: Op::Shift(ShiftKind::Ror), mode: Mode::Acc, cycles: 2, documented: true, penalty: false },
        0x6b => Instr { op: Op::Nop, mode: Mode::Imm, cycles: 2, documented: false, penalty: false },
        0x6c => Instr { op: Op::Jmp, mode: Mode::Ind, cycles: 5, documented: true, penalty: false },
        0x6d => Instr { op: Op::Adc, mode: Mode::Abs, cycles: 4, documented: true, penalty: false },
        0x6e => Instr { op: Op::Shift(ShiftKind::Ror), mode: Mode::Abs, cycles: 6, documented: true, penalty: false },
        0x6f => Instr { op: Op::Rra, mode: Mode::Abs, cycles: 6, documented: false, penalty: false },
        0x70 => Instr { op: Op::Branch(StatusFlag::Overflow, true), mode: Mode::Rel, cycles: 2, documented: true, penalty: false },
        0x71 => Instr { op: Op::Adc, mode: Mode::IndY, cycles: 5, documented: true, penalty: true },
        0x73 => Instr { op: Op::Rra, mode: Mode::IndY, cycles: 8, documented: false, penalty: false },
        0x74 => Instr { op: Op::Nop, mode: Mode::ZpX, cycles: 4, documented: false, penalty: false },
        0x75 => Instr { op: Op::Adc, mode: Mode::ZpX, cycles: 4, documented: true, penalty: false },
        0x76 => Instr { op: Op::Shift(ShiftKind::Ror), mode: Mode::ZpX, cycles: 6, documented: true, penalty: false },
        0x77 => Instr { op: Op::Rra, mode: Mode::ZpX, cycles: 6, documented: false, penalty: false },
        0x78 => Instr { op: Op::SetFlagOp(StatusFlag::InterruptDisable, true), mode: Mode::Imp, cycles: 2, documented: true, penalty: false },
        0x79 => Instr { op: Op::Adc, mode: Mode::AbsY, cycles: 4, documented: true, penalty: true },
        0x7a => Instr { op: Op::Nop, mode: Mode::Imp, cycles: 2, documented: false, penalty: false },
        0x7b => Instr { op: Op::Rra, mode: Mode::AbsY, cycles: 7, documented: false, penalty: false },
        0x7c => Instr { op: Op::Nop, mode: Mode::AbsX, cycles: 4, documented: false, penalty: true },
        0x7d => Instr { op: Op::Adc, mode: Mode::AbsX, cycles: 4, documented: true, penalty: true },
        0x7e => Instr { op: Op::Shift(ShiftKind::Ror), mode: Mode::AbsX, cycles: 7, documented: true, penalty: false },
        0x7f => Instr { op: Op::Rra, mode: Mode::AbsX, cycles: 7, documented: false, penalty: false },
        0x80 => Instr { op: Op::Nop, mode: Mode::Imm, cycles: 2, documented: false, penalty: false },
        0x81 => Instr { op: Op::Store(Reg::A), mode: Mode::IndX, cycles: 6, documented: true, penalty: false },
        0x82 => Instr { op: Op::Nop, mode: Mode::Imm, cycles: 2, documented: false, penalty: false },
        0x83 => Instr { op: Op::Sax, mode: Mode::IndX, cycles: 6, documented: false, penalty: false },
        0x84 => Instr { op: Op::Store(Reg::Y), mode: Mode::Zp, cycles: 3, documented: true, penalty: false },
        0x85 => Instr { op: Op::Store(Reg::A), mode: Mode::Zp, cycles: 3, documented: true, penalty: false },
        0x86 => Instr { op: Op::Store(Reg::X), mode: Mode::Zp, cycles: 3, documented: true, penalty: false },
        0x87 => Instr { op: Op::Sax, mode: Mode::Zp, cycles: 3, documented: false, penalty: false },
        0x88 => Instr { op: Op::DecReg(Reg::Y), mode: Mode::Imp, cycles: 2, documented: true, penalty: false },
        0x89 => Instr { op: Op::Nop, mode: Mode::Imm, cycles: 2, documented: false, penalty: false },
        0x8a => Instr { op: Op::Transfer(TReg::X, TReg::A), mode: Mode::Imp, cycles: 2, documented: true, penalty: false },
        0x8b => Instr { op: Op::Nop, mode: Mode::Imm, cycles: 2, documented: false, penalty: false },
        0x8c => Instr { op: Op::Store(Reg::Y), mode: Mode::Abs, cycles: 4, documented: true, penalty: false },
        0x8d => Instr { op: Op::Store(Reg::A), mode: Mode::Abs, cycles: 4, documented: true, penalty: false },
        0x8e => Instr { op: Op::Store(Reg::X), mode: Mode::Abs, cycles: 4, documented: true, penalty: false },
        0x8f => Instr { op: Op::Sax, mode: Mode::Abs, cycles: 4, documented: false, penalty: false },
        0x90 => Instr { op: Op::Branch(StatusFlag::Carry, false), mode: Mode::Rel, cycles: 2, documented: true, penalty: false },
        0x91 => Instr { op: Op::Store(Reg::A), mode: Mode::IndY, cycles: 6, documented: true, penalty: false },
        0x93 => Instr { op: Op::Nop, mode: Mode::IndY, cycles: 6, documented: false, penalty: false },
        0x94 => Instr { op: Op::Store(Reg::Y), mode: Mode::ZpX, cycles: 4, documented: true, penalty: false },
        0x95 => Instr { op: Op::Store(Reg::A), mode: Mode::ZpX, cycles: 4, documented: true, penalty: false },
        0x96 => Instr { op: Op::Store(Reg::X), mode: Mode::ZpY, cycles: 4, documented: true, penalty: false },
        0x97 => Instr { op: Op::Sax, mode: Mode::ZpY, cycles: 4, documented: false, penalty: false },
        0x98 => Instr { op: Op::Transfer(TReg::Y, TReg::A), mode: Mode::Imp, cycles: 2, documented: true, penalty: false },
        0x99 => Instr { op: Op::Store(Reg::A), mode: Mode::AbsY, cycles: 5, documented: true, penalty: false },
        0x9a => Instr { op: Op::Transfer(TReg::X, TReg::S), mode: Mode::Imp, cycles: 2, documented: true, penalty: false },
        0x9b => Instr { op: Op::Nop, mode: Mode::AbsY, cycles: 5, documented: false, penalty: false },
        0x9c => Instr { op: Op::Nop, mode: Mode::AbsX, cycles: 5, documented: false, penalty: false },
        0x9d => Instr { op: Op::Store(Reg::A), mode: Mode::AbsX, cycles: 5, documented: true, penalty: false },
        0x9e => Instr { op: Op::Nop, mode: Mode::AbsY, cycles: 5, documented: false, penalty: false },
        0x9f => Instr { op: Op::Nop, mode: Mode::AbsY, cycles: 5, documented: false, penalty: false },
        0xa0 => Instr { op: Op::Load(Reg::Y), mode: Mode::Imm, cycles: 2, documented: true, penalty: false },
        0xa1 => Instr { op: Op::Load(Reg::A), mode: Mode::IndX, cycles: 6, documented: true, penalty: false },
        0xa2 => Instr { op: Op::Load(Reg::X), mode: Mode::Imm, cycles: 2, documented: true, penalty: false },
        0xa3 => Instr { op: Op::Lax, mode: Mode::IndX, cycles: 6, documented: false, penalty: false },
        0xa4 => Instr { op: Op::Load(Reg::Y), mode: Mode::Zp, cycles: 3, documented: true, penalty: false },
        0xa5 => Instr { op: Op::Load(Reg::A), mode: Mode::Zp, cycles: 3, documented: true, penalty: false },
        0xa6 => Instr { op: Op::Load(Reg::X), mode: Mode::Zp, cycles: 3, documented: true, penalty: false },
        0xa7 => Instr { op: Op::Lax, mode: Mode::Zp, cycles: 3, documented: false, penalty: false },
        0xa8 => Instr { op: Op::Transfer(TReg::A, TReg::Y), mode: Mode::Imp, cycles: 2, documented: true, penalty: false },
        0xa9 => Instr { op: Op::Load(Reg::A), mode: Mode::Imm, cycles: 2, documented: true, penalty: false },
        0xaa => Instr { op: Op::Transfer(TReg::A, TReg::X), mode: Mode::Imp, cycles: 2, documented: true, penalty: false },
        0xab => Instr { op: Op::Nop, mode: Mode::Imm, cycles: 2, documented: false, penalty: false },
        0xac => Instr { op: Op::Load(Reg::Y), mode: Mode::Abs, cycles: 4, documented: true, penalty: false },
        0xad => Instr { op: Op::Load(Reg::A), mode: Mode::Abs, cycles: 4, documented: true, penalty: false },
        0xae => Instr { op: Op::Load(Reg::X), mode: Mode::Abs, cycles: 4, documented: true, penalty: false },
        0xaf => Instr { op: Op::Lax, mode: Mode::Abs, cycles: 4, documented: false, penalty: false },
        0xb0 => Instr { op: Op::Branch(StatusFlag::Carry, true), mode: Mode::Rel, cycles: 2, documented: true, penalty: false },
        0xb1 => Instr { op: Op::Load(Reg::A), mode: Mode::IndY, cycles: 5, documented: true, penalty: true },
        0xb3 => Instr { op: Op::Lax, mode: Mode::IndY, cycles: 5, documented: false, penalty: true },
        0xb4 => Instr { op: Op::Load(Reg::Y), mode: Mode::ZpX, cycles: 4, documented: true, penalty: false },
        0xb5 => Instr { op: Op::Load(Reg::A), mode: Mode::ZpX, cycles: 4, documented: true, penalty: false },
        0xb6 => Instr { op: Op::Load(Reg::X), mode: Mode::ZpY, cycles: 4, documented: true, penalty: false },
        0xb7 => Instr { op: Op::Lax, mode: Mode::ZpY, cycles: 4, documented: false, penalty: false },
        0xb8 => Instr { op: Op::SetFlagOp(StatusFlag::Overflow, false), mode: Mode::Imp, cycles: 2, documented: true, penalty: false },
        0xb9 => Instr { op: Op::Load(Reg::A), mode: Mode::AbsY, cycles: 4, documented: true, penalty: true },
        0xba => Instr { op: Op::Transfer(TReg::S, TReg::X), mode: Mode::Imp, cycles: 2, documented: true, penalty: false },
        0xbb => Instr { op: Op::Nop, mode: Mode::AbsY, cycles: 4, documented: false, penalty: true },
        0xbc => Instr { op: Op::Load(Reg::Y), mode: Mode::AbsX, cycles: 4, documented: true, penalty: true },
        0xbd => Instr { op: Op::Load(Reg::A), mode: Mode::AbsX, cycles: 4, documented: true, penalty: true },
        0xbe => Instr { op: Op::Load(Reg::X), mode: Mode::AbsY, cycles: 4, documented: true, penalty: true },
        0xbf => Instr { op: Op::Lax, mode: Mode::AbsY, cycles: 4, documented: false, penalty: true },
        0xc0 => Instr { op: Op::Compare(Reg::Y), mode: Mode::Imm, cycles: 2, documented: true, penalty: false },
        0xc1 => Instr { op: Op::Compare(Reg::A), mode: Mode::IndX, cycles: 6, documented: true, penalty: false },
        0xc2 => Instr { op: Op::Nop, mode: Mode::Imm, cycles: 2, documented: false, penalty: false },
        0xc3 => Instr { op: Op::Dcp, mode: Mode::IndX, cycles: 8, documented: false, penalty: false },
        0xc4 => Instr { op: Op::Compare(Reg::Y), mode: Mode::Zp, cycles: 3, documented: true, penalty: false },
        0xc5 => Instr { op: Op::Compare(Reg::A), mode: Mode::Zp, cycles: 3, documented: true, penalty: false },
        0xc6 => Instr { op: Op::DecMem, mode: Mode::Zp, cycles: 5, documented: true, penalty: false },
        0xc7 => Instr { op: Op::Dcp, mode: Mode::Zp, cycles: 5, documented: false, penalty: false },
        0xc8 => Instr { op: Op::IncReg(Reg::Y), mode: Mode::Imp, cycles: 2, documented: true, penalty: false },
        0xc9 => Instr { op: Op::Compare(Reg::A), mode: Mode::Imm, cycles: 2, documented: true, penalty: false },
        0xca => Instr { op: Op::DecReg(Reg::X), mode: Mode::Imp, cycles: 2, documented: true, penalty: false },
        0xcb => Instr { op: Op::Nop, mode: Mode::Imm, cycles: 2, documented: false, penalty: false },
        0xcc => Instr { op: Op::Compare(Reg::Y), mode: Mode::Abs, cycles: 4, documented: true, penalty: false },
        0xcd => Instr { op: Op::Compare(Reg::A), mode: Mode::Abs, cycles: 4, documented: true, penalty: false },
        0xce => Instr { op: Op::DecMem, mode: Mode::Abs, cycles: 6, documented: true, penalty: false },
        0xcf => Instr { op: Op::Dcp, mode: Mode::Abs, cycles: 6, documented: false, penalty: false },
        0xd0 => Instr { op: Op::Branch(StatusFlag::Zero, false), mode: Mode::Rel, cycles: 2, documented: true, penalty: false },
        0xd1 => Instr { op: Op::Compare(Reg::A), mode: Mode::IndY, cycles: 5, documented: true, penalty: true },
        0xd3 => Instr { op: Op::Dcp, mode: Mode::IndY, cycles: 8, documented: false, penalty: false },
        0xd4 => Instr { op: Op::Nop, mode: Mode::ZpX, cycles: 4, documented: false, penalty: false },
        0xd5 => Instr { op: Op::Compare(Reg::A), mode: Mode::ZpX, cycles: 4, documented: true, penalty: false },
        0xd6 => Instr { op: Op::DecMem, mode: Mode::ZpX, cycles: 6, documented: true, penalty: false },
        0xd7 => Instr { op: Op::Dcp, mode: Mode::ZpX, cycles: 6, documented: false, penalty: false },
        0xd8 => Instr { op: Op::SetFlagOp(StatusFlag::Decimal, false), mode: Mode::Imp, cycles: 2, documented: true, penalty: false },
        0xd9 => Instr { op: Op::Compare(Reg::A), mode: Mode::AbsY, cycles: 4, documented: true, penalty: true },
        0xda => Instr { op: Op::Nop, mode: Mode::Imp, cycles: 2, documented: false, penalty: false },
        0xdb => Instr { op: Op::Dcp, mode: Mode::AbsY, cycles: 7, documented: false, penalty: false },
        0xdc => Instr { op: Op::Nop, mode: Mode::AbsX, cycles: 4, documented: false, penalty: true },
        0xdd => Instr { op: Op::Compare(Reg::A), mode: Mode::AbsX, cycles: 4, documented: true, penalty: true },
        0xde => Instr { op: Op::DecMem, mode: Mode::AbsX, cycles: 7, documented: true, penalty: false },
        0xdf => Instr { op: Op::Dcp, mode: Mode::AbsX, cycles: 7, documented: false, penalty: false },
        0xe0 => Instr { op: Op::Compare(Reg::X), mode: Mode::Imm, cycles: 2, documented: true, penalty: false },
        0xe1 => Instr { op: Op::Sbc, mode: Mode::IndX, cycles: 6, documented: true, penalty: false },
        0xe2 => Instr { op: Op::Nop, mode: Mode::Imm, cycles: 2, documented: false, penalty: false },
        0xe3 => Instr { op: Op::Isb, mode: Mode::IndX, cycles: 8, documented: false, penalty: false },
        0xe4 => Instr { op: Op::Compare(Reg::X), mode: Mode::Zp, cycles: 3, documented: true, penalty: false },
        0xe5 => Instr { op: Op::Sbc, mode: Mode::Zp, cycles: 3, documented: true, penalty: false },
        0xe6 => Instr { op: Op::IncMem, mode: Mode::Zp, cycles: 5, documented: true, penalty: false },
        0xe7 => Instr { op: Op::Isb, mode: Mode::Zp, cycles: 5, documented: false, penalty: false },
        0xe8 => Instr { op: Op::IncReg(Reg::X), mode: Mode::Imp, cycles: 2, documented: true, penalty: false },
        0xe9 => Instr { op: Op::Sbc, mode: Mode::Imm, cycles: 2, documented: true, penalty: false },
        0xea => Instr { op: Op::Nop, mode: Mode::Imp, cycles: 2, documented: true, penalty: false },
        0xeb => Instr { op: Op::Sbc, mode: Mode::Imm, cycles: 2, documented: false, penalty: false },
        0xec => Instr { op: Op::Compare(Reg::X), mode: Mode::Abs, cycles: 4, documented: true, penalty: false },
        0xed => Instr { op: Op::Sbc, mode: Mode::Abs, cycles: 4, documented: true, penalty: false },
        0xee => Instr { op: Op::IncMem, mode: Mode::Abs, cycles: 6, documented: true, penalty: false },
        0xef => Instr { op: Op::Isb, mode: Mode::Abs, cycles: 6, documented: false, penalty: false },
        0xf0 => Instr { op: Op::Branch(StatusFlag::Zero, true), mode: Mode::Rel, cycles: 2, documented: true, penalty: false },
        0xf1 => Instr { op: Op::Sbc, mode: Mode::IndY, cycles: 5, documented: true, penalty: true },
        0xf3 => Instr { op: Op::Isb, mode: Mode::IndY, cycles: 8, documented: false, penalty: false },
        0xf4 => Instr { op: Op::Nop, mode: Mode::ZpX, cycles: 4, documented: false, penalty: false },
        0xf5 => Instr { op: Op::Sbc, mode: Mode::ZpX, cycles: 4, documented: true, penalty: false },
        0xf6 => Instr { op: Op::IncMem, mode: Mode::ZpX, cycles: 6, documented: true, penalty: false },
        0xf7 => Instr { op: Op::Isb, mode: Mode::ZpX, cycles: 6, documented: false, penalty: false },
        0xf8 => Instr { op: Op::SetFlagOp(StatusFlag::Decimal, true), mode: Mode::Imp, cycles: 2, documented: true, penalty: false },
        0xf9 => Instr { op: Op::Sbc, mode: Mode::AbsY, cycles: 4, documented: true, penalty: true },
        0xfa => Instr { op: Op::Nop, mode: Mode::Imp, cycles: 2, documented: false, penalty: false },
        0xfb => Instr { op: Op::Isb, mode: Mode::AbsY, cycles: 7, documented: false, penalty: false },
        0xfc => Instr { op: Op::Nop, mode: Mode::AbsX, cycles: 4, documented: false, penalty: true },
        0xfd => Instr { op: Op::Sbc, mode: Mode::AbsX, cycles: 4, documented: true, penalty: true },
        0xfe => Instr { op: Op::IncMem, mode: Mode::AbsX, cycles: 7, documented: true, penalty: false },
        0xff => Instr { op: Op::Isb, mode: Mode::AbsX, cycles: 7, documented: false, penalty: false },
        _ => (Instr { op: Op::Jam, mode: Mode::Imp, cycles: 2, documented: false, penalty: false }),
    }
}

/// Whether an opcode byte belongs to the documented set: the hook a strict
/// diagnostic mode tests before stepping, and switchable off by simply not
/// testing it.
pub fn is_documented(code: u8) -> (b: bool)
    ensures
        b == spec_decode(code).documented,
{
    decode(code).documented
}

} // verus!
