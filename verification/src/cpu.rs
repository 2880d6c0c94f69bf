//! The execution engine: fetch, decode, addressing resolution, semantic
//! execution, flag update and cycle accounting, plus RESET/NMI/IRQ/BRK
//! sequencing.
//!
//! The whole effect of one step is pinned down by the specification
//! interpreter `spec_step`: given the processor and the 64 KiB memory it
//! yields the next processor state, the next memory, and the cycles
//! consumed.  `CPU::step` is verified to produce exactly that triple.
//!
//! Interrupt lines are edge-triggered latches, checked once per completed
//! instruction; servicing one pushes PCH, PCL, then the flags (break bit
//! clear for hardware interrupts, set for BRK), sets Interrupt-disable,
//! loads PC from the proper vector and consumes a fixed 7 cycles.
//!
//! On a real 6502 a read-modify-write instruction performs a read, a dummy
//! write of the unmodified value, then the final write.  This model owns a
//! plain memory with no device semantics, so only the final write appears;
//! the resulting memory is the same.

use vstd::prelude::*;
use crate::addr::{mrd, mrd16, read16, resolve, spec_resolve, Resolved};
use crate::alu::{adc, compare_vals, logic_val, sbc, shift_val, spec_adc, spec_compare,
    spec_logic, spec_sbc, spec_shift, AluOut};
use crate::mem::Mem;
use crate::opcodes::{decode, spec_decode, Instr, LogicKind, Op, Reg, ShiftKind, TReg};
use crate::registers::{bit_of, byte_to_flags, flags_to_byte, pack_flags, spec_flags_clear,
    spec_get_flag, spec_registers_init, spec_set_flag, spec_update_nz, unpack_flags, Registers,
    StatusFlag, StatusFlags};

verus! {

/// Where RESET loads the PC from.
pub const RESET_VECTOR: u16 = 0xFFFC;

/// Where NMI loads the PC from.
pub const NMI_VECTOR: u16 = 0xFFFA;

/// Where IRQ and BRK load the PC from.
pub const IRQ_VECTOR: u16 = 0xFFFE;

/// What the engine does with undocumented opcodes: either their known
/// combinational behaviour, or a multi-byte NOP consuming the documented
/// byte count.  Applied consistently to every undocumented opcode.
#[derive(Clone, Copy, PartialEq, Eq, Structural, Debug)]
pub enum IllegalPolicy {
    /// Execute the known combinational behaviour (the halt opcodes then
    /// leave the PC on themselves).
    Faithful,
    /// Treat every undocumented opcode as a NOP of its byte count.
    NopBytes,
}

/// The 6502 core: the register file, the two latched interrupt lines, and
/// the configured policy for undocumented opcodes.
#[derive(Clone, Copy, PartialEq, Eq, Structural, Debug)]
pub struct CPU {
    pub registers: Registers,
    pub nmi_pending: bool,
    pub irq_pending: bool,
    pub policy: IllegalPolicy,
}

/// The value of an 8-bit data register.
pub open spec fn reg_val(r: Registers, reg: Reg) -> u8 {
    match reg {
        Reg::A => r.a,
        Reg::X => r.x,
        Reg::Y => r.y,
    }
}

/// The register file with one 8-bit data register replaced.
pub open spec fn with_reg(r: Registers, reg: Reg, v: u8) -> Registers {
    match reg {
        Reg::A => Registers { a: v, ..r },
        Reg::X => Registers { x: v, ..r },
        Reg::Y => Registers { y: v, ..r },
    }
}

/// The value of a transfer source (A, X, Y or the stack pointer).
pub open spec fn treg_val(r: Registers, t: TReg) -> u8 {
    match t {
        TReg::A => r.a,
        TReg::X => r.x,
        TReg::Y => r.y,
        TReg::S => r.sp,
    }
}

/// The register file with Zero and Negative taken from `v`.
pub open spec fn upd_nz(r: Registers, v: u8) -> Registers {
    Registers { status: spec_update_nz(r.status, v), ..r }
}

/// The accumulator and the four arithmetic flags replaced from an ALU
/// result.
pub open spec fn apply_alu(r: Registers, out: AluOut) -> Registers {
    Registers {
        a: out.res,
        status: StatusFlags {
            carry: out.carry,
            zero: out.zero,
            overflow: out.overflow,
            negative: out.negative,
            ..r.status
        },
        ..r
    }
}

/// Carry, Zero and Negative replaced (the compare family).
pub open spec fn apply_czn(r: Registers, c: bool, z: bool, n: bool) -> Registers {
    Registers { status: StatusFlags { carry: c, zero: z, negative: n, ..r.status }, ..r }
}

/// A push: the value lands at 0x0100 + SP and SP moves down, wrapping
/// silently within page 1.
pub open spec fn spec_push(r: Registers, m: Seq<u8>, v: u8) -> (Registers, Seq<u8>) {
    (Registers { sp: r.sp.wrapping_sub(1), ..r }, m.update(0x100 + r.sp, v))
}

/// A pop: SP moves up, wrapping within page 1, and the value comes from
/// 0x0100 + the new SP.
pub open spec fn spec_pop(r: Registers, m: Seq<u8>) -> (Registers, u8) {
    let sp2 = r.sp.wrapping_add(1);
    (Registers { sp: sp2, ..r }, mrd(m, (0x100 + sp2) as u16))
}

/// The operand value: the addressed byte, or the accumulator when the mode
/// carries no address.
pub open spec fn operand(r: Registers, rv: Resolved, m: Seq<u8>) -> u8 {
    match rv.addr {
        Some(a) => mrd(m, a),
        None => r.a,
    }
}

/// Writing a result back to where the operand came from: the addressed
/// byte, or the accumulator.
pub open spec fn writeback(r: Registers, rv: Resolved, m: Seq<u8>, v: u8) -> (Registers, Seq<u8>) {
    match rv.addr {
        Some(a) => (r, m.update(a as int, v)),
        None => (Registers { a: v, ..r }, m),
    }
}

/// The semantic routine the engine runs for an opcode: its own for a
/// documented one, its own under the faithful policy, and a NOP of the same
/// byte count otherwise.
pub open spec fn spec_effective(i: Instr, p: IllegalPolicy) -> Op {
    if i.documented {
        i.op
    } else {
        match p {
            IllegalPolicy::Faithful => i.op,
            IllegalPolicy::NopBytes => Op::Nop,
        }
    }
}

/// The interrupt sequence: pushes PCH, PCL, then the flags byte (bit 4 from
/// `brk_bit`, bit 5 set) in that order, sets Interrupt-disable, loads PC
/// from the vector, and consumes 7 cycles.
#[verifier::opaque]
pub open spec fn spec_interrupt(
    c: CPU,
    m: Seq<u8>,
    vector: u16,
    push_pc: u16,
    brk_bit: bool,
) -> (CPU, Seq<u8>, u8) {
    let r0 = c.registers;
    let (r1, m1) = spec_push(r0, m, (push_pc / 256) as u8);
    let (r2, m2) = spec_push(r1, m1, (push_pc % 256) as u8);
    let (r3, m3) = spec_push(r2, m2, flags_to_byte(r0.status, brk_bit));
    let r4 = Registers {
        pc: mrd16(m3, vector),
        status: StatusFlags { interrupt_disable: true, ..r3.status },
        ..r3
    };
    (CPU { registers: r4, ..c }, m3, 7)
}

/// The effect of the load family (LDA/LDX/LDY).
#[verifier::opaque]
pub open spec fn sem_load(c: CPU, m: Seq<u8>, reg: Reg, r: Registers, rv: Resolved, cyc: u8) -> (
    CPU,
    Seq<u8>,
    u8,
) {
    let v = operand(r, rv, m);
    (CPU { registers: upd_nz(with_reg(r, reg, v), v), ..c }, m, cyc)
}

/// The effect of the store family.
#[verifier::opaque]
pub open spec fn sem_store(c: CPU, m: Seq<u8>, reg: Reg, r: Registers, rv: Resolved, cyc: u8) -> (
    CPU,
    Seq<u8>,
    u8,
) {
    let (r2, m2) = writeback(r, rv, m, reg_val(r, reg));
    (CPU { registers: r2, ..c }, m2, cyc)
}

/// The effect of a register transfer: NZ from the value except into S.
pub open spec fn sem_transfer(
    c: CPU,
    m: Seq<u8>,
    src: TReg,
    dst: TReg,
    r: Registers,
    cyc: u8,
) -> (CPU, Seq<u8>, u8) {
    let v = treg_val(r, src);
    let r2 = match dst {
        TReg::S => Registers { sp: v, ..r },
        TReg::A => upd_nz(Registers { a: v, ..r }, v),
        TReg::X => upd_nz(Registers { x: v, ..r }, v),
        TReg::Y => upd_nz(Registers { y: v, ..r }, v),
    };
    (CPU { registers: r2, ..c }, m, cyc)
}

/// The effect of ADC.
#[verifier::opaque]
pub open spec fn sem_adc(c: CPU, m: Seq<u8>, r: Registers, rv: Resolved, cyc: u8) -> (
    CPU,
    Seq<u8>,
    u8,
) {
    let v = operand(r, rv, m);
    let out = spec_adc(r.a, v, r.status.carry, r.status.decimal);
    (CPU { registers: apply_alu(r, out), ..c }, m, cyc)
}

/// The effect of SBC.
#[verifier::opaque]
pub open spec fn sem_sbc(c: CPU, m: Seq<u8>, r: Registers, rv: Resolved, cyc: u8) -> (
    CPU,
    Seq<u8>,
    u8,
) {
    let v = operand(r, rv, m);
    let out = spec_sbc(r.a, v, r.status.carry, r.status.decimal);
    (CPU { registers: apply_alu(r, out), ..c }, m, cyc)
}

/// The effect of AND/ORA/EOR.
#[verifier::opaque]
pub open spec fn sem_logic(
    c: CPU,
    m: Seq<u8>,
    kind: LogicKind,
    r: Registers,
    rv: Resolved,
    cyc: u8,
) -> (CPU, Seq<u8>, u8) {
    let v = operand(r, rv, m);
    let a2 = spec_logic(kind, r.a, v);
    (CPU { registers: upd_nz(Registers { a: a2, ..r }, a2), ..c }, m, cyc)
}

/// The effect of BIT: Z from A AND the operand, N and V copied from the
/// operand's bits 7 and 6.
#[verifier::opaque]
pub open spec fn sem_bit(c: CPU, m: Seq<u8>, r: Registers, rv: Resolved, cyc: u8) -> (
    CPU,
    Seq<u8>,
    u8,
) {
    let v = operand(r, rv, m);
    let r2 = Registers {
        status: StatusFlags {
            zero: (r.a & v) == 0,
            negative: v >= 128,
            overflow: bit_of(v, 64),
            ..r.status
        },
        ..r
    };
    (CPU { registers: r2, ..c }, m, cyc)
}

/// The effect of ASL/LSR/ROL/ROR, on the accumulator or on memory.
#[verifier::opaque]
pub open spec fn sem_shift(
    c: CPU,
    m: Seq<u8>,
    kind: ShiftKind,
    r: Registers,
    rv: Resolved,
    cyc: u8,
) -> (CPU, Seq<u8>, u8) {
    let v = operand(r, rv, m);
    let (res, cout) = spec_shift(kind, v, r.status.carry);
    let (r2, m2) = writeback(r, rv, m, res);
    let r3 = Registers {
        status: StatusFlags { carry: cout, zero: res == 0, negative: res >= 128, ..r2.status },
        ..r2
    };
    (CPU { registers: r3, ..c }, m2, cyc)
}

/// The effect of INC/DEC on memory; `delta` is 1 or 255 (minus one mod 256).
#[verifier::opaque]
pub open spec fn sem_incdec_mem(
    c: CPU,
    m: Seq<u8>,
    delta: u8,
    r: Registers,
    rv: Resolved,
    cyc: u8,
) -> (CPU, Seq<u8>, u8) {
    let v2 = operand(r, rv, m).wrapping_add(delta);
    let (r2, m2) = writeback(r, rv, m, v2);
    (CPU { registers: upd_nz(r2, v2), ..c }, m2, cyc)
}

/// The effect of INX/INY/DEX/DEY.
pub open spec fn sem_incdec_reg(c: CPU, m: Seq<u8>, reg: Reg, delta: u8, r: Registers, cyc: u8) -> (
    CPU,
    Seq<u8>,
    u8,
) {
    let v2 = reg_val(r, reg).wrapping_add(delta);
    (CPU { registers: upd_nz(with_reg(r, reg, v2), v2), ..c }, m, cyc)
}

/// The effect of CMP/CPX/CPY.
#[verifier::opaque]
pub open spec fn sem_compare(c: CPU, m: Seq<u8>, reg: Reg, r: Registers, rv: Resolved, cyc: u8) -> (
    CPU,
    Seq<u8>,
    u8,
) {
    let v = operand(r, rv, m);
    let (cf, zf, nf) = spec_compare(reg_val(r, reg), v);
    (CPU { registers: apply_czn(r, cf, zf, nf), ..c }, m, cyc)
}

/// The effect of a branch: taken when the named flag equals the expected
/// value; one extra cycle when taken, another when the target is on a
/// different page than the instruction's end.
pub open spec fn sem_branch(
    c: CPU,
    m: Seq<u8>,
    flag: StatusFlag,
    want: bool,
    r: Registers,
    rv: Resolved,
    base_cycles: u8,
) -> (CPU, Seq<u8>, u8) {
    let taken = spec_get_flag(r.status, flag) == want;
    let target = match rv.addr {
        Some(t) => t,
        None => r.pc,
    };
    let extra = if taken {
        1int + (if rv.crossed {
            1int
        } else {
            0int
        })
    } else {
        0int
    };
    let r2 = Registers { pc: if taken { target } else { r.pc }, ..r };
    (CPU { registers: r2, ..c }, m, (base_cycles + extra) as u8)
}

/// The effect of JMP.
pub open spec fn sem_jmp(c: CPU, m: Seq<u8>, r: Registers, rv: Resolved, cyc: u8) -> (
    CPU,
    Seq<u8>,
    u8,
) {
    let target = match rv.addr {
        Some(t) => t,
        None => r.pc,
    };
    (CPU { registers: Registers { pc: target, ..r }, ..c }, m, cyc)
}

/// The effect of JSR: the address of the instruction's last byte is pushed,
/// high byte first.
#[verifier::opaque]
pub open spec fn sem_jsr(c: CPU, m: Seq<u8>, r: Registers, rv: Resolved, cyc: u8) -> (
    CPU,
    Seq<u8>,
    u8,
) {
    let target = match rv.addr {
        Some(t) => t,
        None => r.pc,
    };
    let ret = r.pc.wrapping_sub(1);
    let (r1, m1) = spec_push(r, m, (ret / 256) as u8);
    let (r2, m2) = spec_push(r1, m1, (ret % 256) as u8);
    (CPU { registers: Registers { pc: target, ..r2 }, ..c }, m2, cyc)
}

/// The effect of RTS: pop low then high byte and resume one byte past them.
#[verifier::opaque]
pub open spec fn sem_rts(c: CPU, m: Seq<u8>, r: Registers, cyc: u8) -> (CPU, Seq<u8>, u8) {
    let (r1, lo) = spec_pop(r, m);
    let (r2, hi) = spec_pop(r1, m);
    let r3 = Registers { pc: ((lo + 256 * hi) as u16).wrapping_add(1), ..r2 };
    (CPU { registers: r3, ..c }, m, cyc)
}

/// The effect of RTI: pop the flags, then PCL, then PCH, exactly reversing
/// the interrupt sequence; bits 4 and 5 of the pulled byte carry no state.
#[verifier::opaque]
pub open spec fn sem_rti(c: CPU, m: Seq<u8>, r: Registers, cyc: u8) -> (CPU, Seq<u8>, u8) {
    let (r1, p) = spec_pop(r, m);
    let (r2, lo) = spec_pop(r1, m);
    let (r3, hi) = spec_pop(r2, m);
    let r4 = Registers { pc: (lo + 256 * hi) as u16, status: byte_to_flags(p, r.status), ..r3 };
    (CPU { registers: r4, ..c }, m, cyc)
}

/// The effect of PHA/PHP.
#[verifier::opaque]
pub open spec fn sem_push_val(c: CPU, m: Seq<u8>, v: u8, r: Registers, cyc: u8) -> (
    CPU,
    Seq<u8>,
    u8,
) {
    let (r2, m2) = spec_push(r, m, v);
    (CPU { registers: r2, ..c }, m2, cyc)
}

/// The effect of PLA.
#[verifier::opaque]
pub open spec fn sem_pla(c: CPU, m: Seq<u8>, r: Registers, cyc: u8) -> (CPU, Seq<u8>, u8) {
    let (r1, v) = spec_pop(r, m);
    (CPU { registers: upd_nz(Registers { a: v, ..r1 }, v), ..c }, m, cyc)
}

/// The effect of PLP: bits 4 and 5 of the pulled byte carry no state.
#[verifier::opaque]
pub open spec fn sem_plp(c: CPU, m: Seq<u8>, r: Registers, cyc: u8) -> (CPU, Seq<u8>, u8) {
    let (r1, p) = spec_pop(r, m);
    (CPU { registers: Registers { status: byte_to_flags(p, r.status), ..r1 }, ..c }, m, cyc)
}

/// The effect of CLC/SEC/CLI/SEI/CLV/CLD/SED.
pub open spec fn sem_set_flag(
    c: CPU,
    m: Seq<u8>,
    flag: StatusFlag,
    on: bool,
    r: Registers,
    cyc: u8,
) -> (CPU, Seq<u8>, u8) {
    (CPU { registers: Registers { status: spec_set_flag(r.status, flag, on), ..r }, ..c }, m, cyc)
}

/// The effect of LAX: A and X loaded together.
#[verifier::opaque]
pub open spec fn sem_lax(c: CPU, m: Seq<u8>, r: Registers, rv: Resolved, cyc: u8) -> (
    CPU,
    Seq<u8>,
    u8,
) {
    let v = operand(r, rv, m);
    (CPU { registers: upd_nz(Registers { a: v, x: v, ..r }, v), ..c }, m, cyc)
}

/// The effect of SAX: A AND X stored, no flags.
#[verifier::opaque]
pub open spec fn sem_sax(c: CPU, m: Seq<u8>, r: Registers, rv: Resolved, cyc: u8) -> (
    CPU,
    Seq<u8>,
    u8,
) {
    let (r2, m2) = writeback(r, rv, m, r.a & r.x);
    (CPU { registers: r2, ..c }, m2, cyc)
}

/// The effect of DCP: DEC memory, then compare A against the result.
#[verifier::opaque]
pub open spec fn sem_dcp(c: CPU, m: Seq<u8>, r: Registers, rv: Resolved, cyc: u8) -> (
    CPU,
    Seq<u8>,
    u8,
) {
    let v2 = operand(r, rv, m).wrapping_sub(1);
    let (r2, m2) = writeback(r, rv, m, v2);
    let (cf, zf, nf) = spec_compare(r.a, v2);
    (CPU { registers: apply_czn(r2, cf, zf, nf), ..c }, m2, cyc)
}

/// The effect of ISB: INC memory, then SBC the result.
#[verifier::opaque]
pub open spec fn sem_isb(c: CPU, m: Seq<u8>, r: Registers, rv: Resolved, cyc: u8) -> (
    CPU,
    Seq<u8>,
    u8,
) {
    let v2 = operand(r, rv, m).wrapping_add(1);
    let (r2, m2) = writeback(r, rv, m, v2);
    let out = spec_sbc(r.a, v2, r.status.carry, r.status.decimal);
    (CPU { registers: apply_alu(r2, out), ..c }, m2, cyc)
}

/// The effect of SLO/RLA/SRE: shift memory, combine into A, NZ from A and
/// Carry from the shift.
#[verifier::opaque]
pub open spec fn sem_shift_logic(
    c: CPU,
    m: Seq<u8>,
    skind: ShiftKind,
    lkind: LogicKind,
    r: Registers,
    rv: Resolved,
    cyc: u8,
) -> (CPU, Seq<u8>, u8) {
    let v = operand(r, rv, m);
    let (res, cout) = spec_shift(skind, v, r.status.carry);
    let (r2, m2) = writeback(r, rv, m, res);
    let a2 = spec_logic(lkind, r.a, res);
    let r3 = Registers {
        a: a2,
        status: StatusFlags { carry: cout, zero: a2 == 0, negative: a2 >= 128, ..r2.status },
        ..r2
    };
    (CPU { registers: r3, ..c }, m2, cyc)
}

/// The effect of RRA: ROR memory, then ADC the result with the rotate's
/// carry out.
#[verifier::opaque]
pub open spec fn sem_rra(c: CPU, m: Seq<u8>, r: Registers, rv: Resolved, cyc: u8) -> (
    CPU,
    Seq<u8>,
    u8,
) {
    let v = operand(r, rv, m);
    let (res, cout) = spec_shift(ShiftKind::Ror, v, r.status.carry);
    let (r2, m2) = writeback(r, rv, m, res);
    let out = spec_adc(r2.a, res, cout, r2.status.decimal);
    (CPU { registers: apply_alu(r2, out), ..c }, m2, cyc)
}

/// The routines handled by the second half of the semantic dispatch.
pub open spec fn rest_op(eff: Op) -> bool {
    match eff {
        Op::Brk | Op::Pha | Op::Php | Op::Pla | Op::Plp | Op::SetFlagOp(_, _) | Op::Nop
            | Op::Lax | Op::Sax | Op::Dcp | Op::Isb | Op::Slo | Op::Rla | Op::Sre | Op::Rra
            | Op::Jam => true,
        _ => false,
    }
}

/// The semantic dispatch: the effect of one decoded routine, given the
/// processor with PC already past the instruction bytes, the resolution
/// outcome, and the cycle count with any addressing penalty applied.
/// `pc0` is the opcode's own address, where a halt opcode leaves the PC.
pub open spec fn spec_run_op(
    c: CPU,
    m: Seq<u8>,
    eff: Op,
    rv: Resolved,
    cyc: u8,
    pc0: u16,
) -> (CPU, Seq<u8>, u8) {
    let r = c.registers;
    match eff {
        Op::Load(reg) => sem_load(c, m, reg, r, rv, cyc),
        Op::Store(reg) => sem_store(c, m, reg, r, rv, cyc),
        Op::Transfer(src, dst) => sem_transfer(c, m, src, dst, r, cyc),
        Op::Adc => sem_adc(c, m, r, rv, cyc),
        Op::Sbc => sem_sbc(c, m, r, rv, cyc),
        Op::Logic(kind) => sem_logic(c, m, kind, r, rv, cyc),
        Op::Bit => sem_bit(c, m, r, rv, cyc),
        Op::Shift(kind) => sem_shift(c, m, kind, r, rv, cyc),
        Op::IncMem => sem_incdec_mem(c, m, 1, r, rv, cyc),
        Op::DecMem => sem_incdec_mem(c, m, 255, r, rv, cyc),
        Op::IncReg(reg) => sem_incdec_reg(c, m, reg, 1, r, cyc),
        Op::DecReg(reg) => sem_incdec_reg(c, m, reg, 255, r, cyc),
        Op::Compare(reg) => sem_compare(c, m, reg, r, rv, cyc),
        Op::Branch(flag, want) => sem_branch(c, m, flag, want, r, rv, cyc),
        Op::Jmp => sem_jmp(c, m, r, rv, cyc),
        Op::Jsr => sem_jsr(c, m, r, rv, cyc),
        Op::Rts => sem_rts(c, m, r, cyc),
        Op::Rti => sem_rti(c, m, r, cyc),
        Op::Brk => spec_interrupt(CPU { registers: r, ..c }, m, IRQ_VECTOR, r.pc.wrapping_add(1), true),
        Op::Pha => sem_push_val(c, m, r.a, r, cyc),
        Op::Php => sem_push_val(c, m, flags_to_byte(r.status, true), r, cyc),
        Op::Pla => sem_pla(c, m, r, cyc),
        Op::Plp => sem_plp(c, m, r, cyc),
        Op::SetFlagOp(flag, on) => sem_set_flag(c, m, flag, on, r, cyc),
        Op::Nop => (CPU { registers: r, ..c }, m, cyc),
        Op::Lax => sem_lax(c, m, r, rv, cyc),
        Op::Sax => sem_sax(c, m, r, rv, cyc),
        Op::Dcp => sem_dcp(c, m, r, rv, cyc),
        Op::Isb => sem_isb(c, m, r, rv, cyc),
        Op::Slo => sem_shift_logic(c, m, ShiftKind::Asl, LogicKind::Or, r, rv, cyc),
        Op::Rla => sem_shift_logic(c, m, ShiftKind::Rol, LogicKind::And, r, rv, cyc),
        Op::Sre => sem_shift_logic(c, m, ShiftKind::Lsr, LogicKind::Xor, r, rv, cyc),
        Op::Rra => sem_rra(c, m, r, rv, cyc),
        Op::Jam => (CPU { registers: Registers { pc: pc0, ..r }, ..c }, m, cyc),
    }
}

/// One instruction, interrupts aside: fetch at PC, decode, resolve the
/// addressing mode, run the semantic routine, count cycles.
pub open spec fn spec_exec_instr(c: CPU, m: Seq<u8>) -> (CPU, Seq<u8>, u8) {
    let code = mrd(m, c.registers.pc);
    let i = spec_decode(code);
    let eff = spec_effective(i, c.policy);
    let pc1 = c.registers.pc.wrapping_add(1);
    let rv = spec_resolve(i.mode, pc1, c.registers.x, c.registers.y, m);
    let r = Registers { pc: rv.next_pc, ..c.registers };
    let cyc = (i.cycles + (if i.penalty && rv.crossed {
        1int
    } else {
        0int
    })) as u8;
    spec_run_op(CPU { registers: r, ..c }, m, eff, rv, cyc, c.registers.pc)
}

/// One step: a pending NMI is serviced first, then a pending IRQ when
/// Interrupt-disable is clear, else one instruction executes.  Servicing
/// clears the latch.
pub open spec fn spec_step(c: CPU, m: Seq<u8>) -> (CPU, Seq<u8>, u8) {
    if c.nmi_pending {
        spec_interrupt(CPU { nmi_pending: false, ..c }, m, NMI_VECTOR, c.registers.pc, false)
    } else if c.irq_pending && !c.registers.status.interrupt_disable {
        spec_interrupt(CPU { irq_pending: false, ..c }, m, IRQ_VECTOR, c.registers.pc, false)
    } else {
        spec_exec_instr(c, m)
    }
}

/// The processor state a reset signal establishes: PC from the reset
/// vector, SP 0xFD, A/X/Y cleared, Interrupt-disable set and the other
/// flags per power-on convention, both interrupt latches dropped.  The
/// configured policy is kept.
pub open spec fn spec_reset(c: CPU, m: Seq<u8>) -> CPU {
    CPU {
        registers: Registers {
            pc: mrd16(m, RESET_VECTOR),
            sp: 0xFD,
            a: 0,
            x: 0,
            y: 0,
            status: StatusFlags {
                interrupt_disable: true,
                unused: true,
                ..spec_flags_clear()
            },
        },
        nmi_pending: false,
        irq_pending: false,
        policy: c.policy,
    }
}

impl CPU {
    /// A core with a fresh register file, no pending interrupts, and
    /// undocumented opcodes treated as NOPs; `with_policy` chooses
    /// otherwise.
    pub fn new() -> (c: CPU)
        ensures
            c.registers == spec_registers_init(),
            !c.nmi_pending,
            !c.irq_pending,
            c.policy == IllegalPolicy::NopBytes,
    {
        CPU {
            registers: Registers::new(),
            nmi_pending: false,
            irq_pending: false,
            policy: IllegalPolicy::NopBytes,
        }
    }

    /// A core with the given policy for undocumented opcodes.
    pub fn with_policy(policy: IllegalPolicy) -> (c: CPU)
        ensures
            c.registers == spec_registers_init(),
            !c.nmi_pending,
            !c.irq_pending,
            c.policy == policy,
    {
        CPU { policy, ..CPU::new() }
    }

    /// Applies the reset signal.
    pub fn reset(&mut self, mem: &Mem)
        requires
            mem.wf(),
        ensures
            *final(self) == spec_reset(*old(self), mem@),
    {
        self.registers = Registers::new();
        self.registers.pc = read16(mem, RESET_VECTOR);
        self.registers.status.interrupt_disable = true;
        self.registers.status.unused = true;
        self.nmi_pending = false;
        self.irq_pending = false;
    }

    /// Latches the NMI line; it stays pending until serviced.
    pub fn assert_nmi(&mut self)
        ensures
            *final(self) == (CPU { nmi_pending: true, ..*old(self) }),
    {
        self.nmi_pending = true;
    }

    /// Latches the IRQ line; it stays pending until serviced, and is
    /// ignored while Interrupt-disable is set.
    pub fn assert_irq(&mut self)
        ensures
            *final(self) == (CPU { irq_pending: true, ..*old(self) }),
    {
        self.irq_pending = true;
    }

    /// Pushes one byte onto the page-1 stack.
    fn push(&mut self, mem: &mut Mem, v: u8)
        requires
            old(mem).wf(),
        ensures
            final(mem).wf(),
            ({
                let (r2, m2) = spec_push(old(self).registers, old(mem)@, v);
                *final(self) == (CPU { registers: r2, ..*old(self) }) && final(mem)@ == m2
            }),
    {
        mem.write(0x100 + self.registers.sp as u16, v);
        self.registers.sp = self.registers.sp.wrapping_sub(1);
    }

    /// Pops one byte from the page-1 stack.
    fn pop(&mut self, mem: &Mem) -> (v: u8)
        requires
            mem.wf(),
        ensures
            ({
                let (r2, v2) = spec_pop(old(self).registers, mem@);
                *final(self) == (CPU { registers: r2, ..*old(self) }) && v == v2
            }),
    {
        self.registers.sp = self.registers.sp.wrapping_add(1);
        mem.read(0x100 + self.registers.sp as u16)
    }

    /// Runs the interrupt sequence towards the given vector.
    fn interrupt(&mut self, mem: &mut Mem, vector: u16, push_pc: u16, brk_bit: bool) -> (cycles:
        u8)
        requires
            old(mem).wf(),
        ensures
            final(mem).wf(),
            ({
                let (c2, m2, cy) = spec_interrupt(*old(self), old(mem)@, vector, push_pc, brk_bit);
                *final(self) == c2 && final(mem)@ == m2 && cycles == cy
            }),
    {
        proof {
            reveal(spec_interrupt);
        }
        let flags = pack_flags(&self.registers.status, brk_bit);
        self.push(mem, (push_pc / 256) as u8);
        self.push(mem, (push_pc % 256) as u8);
        self.push(mem, flags);
        self.registers.status.interrupt_disable = true;
        self.registers.pc = read16(mem, vector);
        7
    }

    /// Executes exactly one instruction, or services one pending interrupt,
    /// and returns the cycles consumed.
    pub fn step(&mut self, mem: &mut Mem) -> (cycles: u8)
        requires
            old(mem).wf(),
        ensures
            final(mem).wf(),
            ({
                let (c2, m2, cy) = spec_step(*old(self), old(mem)@);
                *final(self) == c2 && final(mem)@ == m2 && cycles == cy
            }),
    {
        if self.nmi_pending {
            self.nmi_pending = false;
            let pc = self.registers.pc;
            self.interrupt(mem, NMI_VECTOR, pc, false)
        } else if self.irq_pending && !self.registers.status.interrupt_disable {
            self.irq_pending = false;
            let pc = self.registers.pc;
            self.interrupt(mem, IRQ_VECTOR, pc, false)
        } else {
            self.exec_instr(mem)
        }
    }

    /// Fetch, decode, resolve, execute, count: one instruction.
    fn exec_instr(&mut self, mem: &mut Mem) -> (cycles: u8)
        requires
            old(mem).wf(),
        ensures
            final(mem).wf(),
            ({
                let (c2, m2, cy) = spec_exec_instr(*old(self), old(mem)@);
                *final(self) == c2 && final(mem)@ == m2 && cycles == cy
            }),
    {
        let pc0 = self.registers.pc;
        let code = mem.read(pc0);
        let i = decode(code);
        let eff = effective_op(&i, self.policy);
        let pc1 = pc0.wrapping_add(1);
        let res = resolve(mem, i.mode, pc1, self.registers.x, self.registers.y);
        self.registers.pc = res.next_pc;
        let cyc: u8 = if i.penalty && res.crossed {
            i.cycles + 1
        } else {
            i.cycles
        };
        self.run_op(mem, eff, res, cyc, pc0)
    }

    /// Runs one decoded semantic routine; the PC already points past the
    /// instruction bytes.
    #[verifier::spinoff_prover]
    #[verifier::rlimit(100)]
    fn run_op(&mut self, mem: &mut Mem, eff: Op, res: Resolved, cyc: u8, pc0: u16) -> (cycles: u8)
        requires
            old(mem).wf(),
            cyc <= 9,
        ensures
            final(mem).wf(),
            ({
                let (c2, m2, cy) = spec_run_op(*old(self), old(mem)@, eff, res, cyc, pc0);
                *final(self) == c2 && final(mem)@ == m2 && cycles == cy
            }),
    {
        match eff {
            Op::Load(reg) => self.op_load(mem, reg, &res, cyc),
            Op::Store(reg) => self.op_store(mem, reg, &res, cyc),
            Op::Transfer(src, dst) => self.op_transfer(src, dst, cyc),
            Op::Adc => self.op_adc(mem, &res, cyc),
            Op::Sbc => self.op_sbc(mem, &res, cyc),
            Op::Logic(kind) => self.op_logic(mem, kind, &res, cyc),
            Op::Bit => self.op_bit(mem, &res, cyc),
            Op::Shift(kind) => self.op_shift(mem, kind, &res, cyc),
            Op::IncMem => self.op_incdec_mem(mem, 1, &res, cyc),
            Op::DecMem => self.op_incdec_mem(mem, 255, &res, cyc),
            Op::IncReg(reg) => self.op_incdec_reg(reg, 1, cyc),
            Op::DecReg(reg) => self.op_incdec_reg(reg, 255, cyc),
            Op::Compare(reg) => self.op_compare(mem, reg, &res, cyc),
            Op::Branch(flag, want) => self.op_branch(flag, want, &res, cyc),
            Op::Jmp => self.op_jmp(&res, cyc),
            Op::Jsr => self.op_jsr(mem, &res, cyc),
            Op::Rts => self.op_rts(mem, cyc),
            Op::Rti => self.op_rti(mem, cyc),
            _ => self.run_op_rest(mem, eff, res, cyc, pc0),
        }
    }

    /// The second half of the semantic dispatch: stack, flag, system and
    /// undocumented routines.
    #[verifier::spinoff_prover]
    #[verifier::rlimit(100)]
    fn run_op_rest(&mut self, mem: &mut Mem, eff: Op, res: Resolved, cyc: u8, pc0: u16) -> (cycles: u8)
        requires
            old(mem).wf(),
            rest_op(eff),
        ensures
            final(mem).wf(),
            ({
                let (c2, m2, cy) = spec_run_op(*old(self), old(mem)@, eff, res, cyc, pc0);
                *final(self) == c2 && final(mem)@ == m2 && cycles == cy
            }),
    {
        match eff {
            Op::Brk => {
                let push_pc = self.registers.pc.wrapping_add(1);
                self.interrupt(mem, IRQ_VECTOR, push_pc, true)
            },
            Op::Pha => {
                let v = self.registers.a;
                self.op_push_val(mem, v, cyc)
            },
            Op::Php => {
                let v = pack_flags(&self.registers.status, true);
                self.op_push_val(mem, v, cyc)
            },
            Op::Pla => self.op_pla(mem, cyc),
            Op::Plp => self.op_plp(mem, cyc),
            Op::SetFlagOp(flag, on) => self.op_set_flag(flag, on, cyc),
            Op::Nop => cyc,
            Op::Lax => self.op_lax(mem, &res, cyc),
            Op::Sax => self.op_sax(mem, &res, cyc),
            Op::Dcp => self.op_dcp(mem, &res, cyc),
            Op::Isb => self.op_isb(mem, &res, cyc),
            Op::Slo => self.op_shift_logic(mem, ShiftKind::Asl, LogicKind::Or, &res, cyc),
            Op::Rla => self.op_shift_logic(mem, ShiftKind::Rol, LogicKind::And, &res, cyc),
            Op::Sre => self.op_shift_logic(mem, ShiftKind::Lsr, LogicKind::Xor, &res, cyc),
            Op::Rra => self.op_rra(mem, &res, cyc),
            Op::Jam => {
                self.registers.pc = pc0;
                cyc
            },
            _ => {
                proof {
                    assert(false);
                }
                cyc
            },
        }
    }

    /// LDA/LDX/LDY.
    fn op_load(&mut self, mem: &Mem, reg: Reg, res: &Resolved, cyc: u8) -> (cycles: u8)
        requires
            mem.wf(),
        ensures
            ({
                let (c2, m2, cy) = sem_load(*old(self), mem@, reg, old(self).registers, *res, cyc);
                *final(self) == c2 && m2 == mem@ && cycles == cy
            }),
    {
        proof {
            reveal(sem_load);
        }
        let v = self.operand_value(mem, res);
        self.set_reg(reg, v);
        self.registers.update_nz(v);
        cyc
    }

    /// STA/STX/STY.
    fn op_store(&mut self, mem: &mut Mem, reg: Reg, res: &Resolved, cyc: u8) -> (cycles: u8)
        requires
            old(mem).wf(),
        ensures
            final(mem).wf(),
            ({
                let (c2, m2, cy) = sem_store(*old(self), old(mem)@, reg, old(self).registers, *res, cyc);
                *final(self) == c2 && final(mem)@ == m2 && cycles == cy
            }),
    {
        proof {
            reveal(sem_store);
        }
        let v = self.reg_value(reg);
        self.write_operand(mem, res, v);
        cyc
    }

    /// TAX/TAY/TXA/TYA/TSX/TXS.  The semantic
    /// function ignores its memory argument here, so any sequence serves.
    #[verifier::rlimit(50)]
    fn op_transfer(&mut self, src: TReg, dst: TReg, cyc: u8) -> (cycles: u8)
        ensures
            ({
                let (c2, m2, cy) = sem_transfer(*old(self), Seq::<u8>::empty(), src, dst, old(self).registers, cyc);
                *final(self) == c2 && cycles == cy
            }),
    {
        let v = match src {
            TReg::A => self.registers.a,
            TReg::X => self.registers.x,
            TReg::Y => self.registers.y,
            TReg::S => self.registers.sp,
        };
        match dst {
            TReg::S => {
                self.registers.sp = v;
            },
            TReg::A => {
                self.registers.a = v;
                self.registers.update_nz(v);
            },
            TReg::X => {
                self.registers.x = v;
                self.registers.update_nz(v);
            },
            TReg::Y => {
                self.registers.y = v;
                self.registers.update_nz(v);
            },
        }
        cyc
    }

    /// ADC.
    fn op_adc(&mut self, mem: &Mem, res: &Resolved, cyc: u8) -> (cycles: u8)
        requires
            mem.wf(),
        ensures
            ({
                let (c2, m2, cy) = sem_adc(*old(self), mem@, old(self).registers, *res, cyc);
                *final(self) == c2 && m2 == mem@ && cycles == cy
            }),
    {
        proof {
            reveal(sem_adc);
        }
        let v = self.operand_value(mem, res);
        let out = adc(self.registers.a, v, self.registers.status.carry,
            self.registers.status.decimal);
        self.apply_alu_out(&out);
        cyc
    }

    /// SBC.
    fn op_sbc(&mut self, mem: &Mem, res: &Resolved, cyc: u8) -> (cycles: u8)
        requires
            mem.wf(),
        ensures
            ({
                let (c2, m2, cy) = sem_sbc(*old(self), mem@, old(self).registers, *res, cyc);
                *final(self) == c2 && m2 == mem@ && cycles == cy
            }),
    {
        proof {
            reveal(sem_sbc);
        }
        let v = self.operand_value(mem, res);
        let out = sbc(self.registers.a, v, self.registers.status.carry,
            self.registers.status.decimal);
        self.apply_alu_out(&out);
        cyc
    }

    /// AND/ORA/EOR.
    fn op_logic(&mut self, mem: &Mem, kind: LogicKind, res: &Resolved, cyc: u8) -> (cycles: u8)
        requires
            mem.wf(),
        ensures
            ({
                let (c2, m2, cy) = sem_logic(*old(self), mem@, kind, old(self).registers, *res, cyc);
                *final(self) == c2 && m2 == mem@ && cycles == cy
            }),
    {
        proof {
            reveal(sem_logic);
        }
        let v = self.operand_value(mem, res);
        let a2 = logic_val(kind, self.registers.a, v);
        self.registers.a = a2;
        self.registers.update_nz(a2);
        cyc
    }

    /// BIT.
    fn op_bit(&mut self, mem: &Mem, res: &Resolved, cyc: u8) -> (cycles: u8)
        requires
            mem.wf(),
        ensures
            ({
                let (c2, m2, cy) = sem_bit(*old(self), mem@, old(self).registers, *res, cyc);
                *final(self) == c2 && m2 == mem@ && cycles == cy
            }),
    {
        proof {
            reveal(sem_bit);
        }
        let v = self.operand_value(mem, res);
        self.registers.status.zero = (self.registers.a & v) == 0;
        self.registers.status.negative = v >= 128;
        self.registers.status.overflow = (v / 64) % 2 == 1;
        cyc
    }

    /// ASL/LSR/ROL/ROR.
    fn op_shift(&mut self, mem: &mut Mem, kind: ShiftKind, res: &Resolved, cyc: u8) -> (cycles: u8)
        requires
            old(mem).wf(),
        ensures
            final(mem).wf(),
            ({
                let (c2, m2, cy) = sem_shift(*old(self), old(mem)@, kind, old(self).registers, *res, cyc);
                *final(self) == c2 && final(mem)@ == m2 && cycles == cy
            }),
    {
        proof {
            reveal(sem_shift);
        }
        let v = self.operand_value(mem, res);
        let (sres, cout) = shift_val(kind, v, self.registers.status.carry);
        self.write_operand(mem, res, sres);
        self.registers.status.carry = cout;
        self.registers.status.zero = sres == 0;
        self.registers.status.negative = sres >= 128;
        cyc
    }

    /// INC/DEC on memory; `delta` is 1 or 255 (minus one mod 256).
    fn op_incdec_mem(&mut self, mem: &mut Mem, delta: u8, res: &Resolved, cyc: u8) -> (cycles: u8)
        requires
            old(mem).wf(),
        ensures
            final(mem).wf(),
            ({
                let (c2, m2, cy) = sem_incdec_mem(*old(self), old(mem)@, delta, old(self).registers, *res, cyc);
                *final(self) == c2 && final(mem)@ == m2 && cycles == cy
            }),
    {
        proof {
            reveal(sem_incdec_mem);
        }
        let v2 = self.operand_value(mem, res).wrapping_add(delta);
        self.write_operand(mem, res, v2);
        self.registers.update_nz(v2);
        cyc
    }

    /// INX/INY/DEX/DEY; `delta` is 1 or 255 (minus one mod 256).  The semantic
    /// function ignores its memory argument here, so any sequence serves.
    fn op_incdec_reg(&mut self, reg: Reg, delta: u8, cyc: u8) -> (cycles: u8)
        ensures
            ({
                let (c2, m2, cy) = sem_incdec_reg(*old(self), Seq::<u8>::empty(), reg, delta, old(self).registers, cyc);
                *final(self) == c2 && cycles == cy
            }),
    {
        let v2 = self.reg_value(reg).wrapping_add(delta);
        self.set_reg(reg, v2);
        self.registers.update_nz(v2);
        cyc
    }

    /// CMP/CPX/CPY.
    fn op_compare(&mut self, mem: &Mem, reg: Reg, res: &Resolved, cyc: u8) -> (cycles: u8)
        requires
            mem.wf(),
        ensures
            ({
                let (c2, m2, cy) = sem_compare(*old(self), mem@, reg, old(self).registers, *res, cyc);
                *final(self) == c2 && m2 == mem@ && cycles == cy
            }),
    {
        proof {
            reveal(sem_compare);
        }
        let v = self.operand_value(mem, res);
        let (cf, zf, nf) = compare_vals(self.reg_value(reg), v);
        self.registers.status.carry = cf;
        self.registers.status.zero = zf;
        self.registers.status.negative = nf;
        cyc
    }

    /// BPL/BMI/BVC/BVS/BCC/BCS/BNE/BEQ.  The semantic
    /// function ignores its memory argument here, so any sequence serves.
    fn op_branch(&mut self, flag: StatusFlag, want: bool, res: &Resolved, base: u8) -> (cycles: u8)
        requires
            base <= 9,
        ensures
            ({
                let (c2, m2, cy) = sem_branch(*old(self), Seq::<u8>::empty(), flag, want, old(self).registers, *res, base);
                *final(self) == c2 && cycles == cy
            }),
    {
        let taken = self.registers.get_flag(flag) == want;
        let target = match res.addr {
            Some(t) => t,
            None => self.registers.pc,
        };
        if taken {
            self.registers.pc = target;
            if res.crossed {
                base + 2
            } else {
                base + 1
            }
        } else {
            base
        }
    }

    /// JMP.  The semantic
    /// function ignores its memory argument here, so any sequence serves.
    fn op_jmp(&mut self, res: &Resolved, cyc: u8) -> (cycles: u8)
        ensures
            ({
                let (c2, m2, cy) = sem_jmp(*old(self), Seq::<u8>::empty(), old(self).registers, *res, cyc);
                *final(self) == c2 && cycles == cy
            }),
    {
        let target = match res.addr {
            Some(t) => t,
            None => self.registers.pc,
        };
        self.registers.pc = target;
        cyc
    }

    /// JSR.
    fn op_jsr(&mut self, mem: &mut Mem, res: &Resolved, cyc: u8) -> (cycles: u8)
        requires
            old(mem).wf(),
        ensures
            final(mem).wf(),
            ({
                let (c2, m2, cy) = sem_jsr(*old(self), old(mem)@, old(self).registers, *res, cyc);
                *final(self) == c2 && final(mem)@ == m2 && cycles == cy
            }),
    {
        proof {
            reveal(sem_jsr);
        }
        let target = match res.addr {
            Some(t) => t,
            None => self.registers.pc,
        };
        let ret = self.registers.pc.wrapping_sub(1);
        self.push(mem, (ret / 256) as u8);
        self.push(mem, (ret % 256) as u8);
        self.registers.pc = target;
        cyc
    }

    /// RTS.
    fn op_rts(&mut self, mem: &Mem, cyc: u8) -> (cycles: u8)
        requires
            mem.wf(),
        ensures
            ({
                let (c2, m2, cy) = sem_rts(*old(self), mem@, old(self).registers, cyc);
                *final(self) == c2 && m2 == mem@ && cycles == cy
            }),
    {
        proof {
            reveal(sem_rts);
        }
        let lo = self.pop(mem);
        let hi = self.pop(mem);
        self.registers.pc = (lo as u16 + 256 * (hi as u16)).wrapping_add(1);
        cyc
    }

    /// RTI.
    fn op_rti(&mut self, mem: &Mem, cyc: u8) -> (cycles: u8)
        requires
            mem.wf(),
        ensures
            ({
                let (c2, m2, cy) = sem_rti(*old(self), mem@, old(self).registers, cyc);
                *final(self) == c2 && m2 == mem@ && cycles == cy
            }),
    {
        proof {
            reveal(sem_rti);
        }
        let p = self.pop(mem);
        let lo = self.pop(mem);
        let hi = self.pop(mem);
        self.registers.status = unpack_flags(p, &self.registers.status);
        self.registers.pc = lo as u16 + 256 * (hi as u16);
        cyc
    }

    /// PHA/PHP, with the byte to push already computed.
    fn op_push_val(&mut self, mem: &mut Mem, v: u8, cyc: u8) -> (cycles: u8)
        requires
            old(mem).wf(),
        ensures
            final(mem).wf(),
            ({
                let (c2, m2, cy) = sem_push_val(*old(self), old(mem)@, v, old(self).registers, cyc);
                *final(self) == c2 && final(mem)@ == m2 && cycles == cy
            }),
    {
        proof {
            reveal(sem_push_val);
        }
        self.push(mem, v);
        cyc
    }

    /// PLA.
    fn op_pla(&mut self, mem: &Mem, cyc: u8) -> (cycles: u8)
        requires
            mem.wf(),
        ensures
            ({
                let (c2, m2, cy) = sem_pla(*old(self), mem@, old(self).registers, cyc);
                *final(self) == c2 && m2 == mem@ && cycles == cy
            }),
    {
        proof {
            reveal(sem_pla);
        }
        let v = self.pop(mem);
        self.registers.a = v;
        self.registers.update_nz(v);
        cyc
    }

    /// PLP.
    fn op_plp(&mut self, mem: &Mem, cyc: u8) -> (cycles: u8)
        requires
            mem.wf(),
        ensures
            ({
                let (c2, m2, cy) = sem_plp(*old(self), mem@, old(self).registers, cyc);
                *final(self) == c2 && m2 == mem@ && cycles == cy
            }),
    {
        proof {
            reveal(sem_plp);
        }
        let p = self.pop(mem);
        self.registers.status = unpack_flags(p, &self.registers.status);
        cyc
    }

    /// CLC/SEC/CLI/SEI/CLV/CLD/SED.  The semantic
    /// function ignores its memory argument here, so any sequence serves.
    fn op_set_flag(&mut self, flag: StatusFlag, on: bool, cyc: u8) -> (cycles: u8)
        ensures
            ({
                let (c2, m2, cy) = sem_set_flag(*old(self), Seq::<u8>::empty(), flag, on, old(self).registers, cyc);
                *final(self) == c2 && cycles == cy
            }),
    {
        self.registers.set_flag(flag, on);
        cyc
    }

    /// LAX.
    fn op_lax(&mut self, mem: &Mem, res: &Resolved, cyc: u8) -> (cycles: u8)
        requires
            mem.wf(),
        ensures
            ({
                let (c2, m2, cy) = sem_lax(*old(self), mem@, old(self).registers, *res, cyc);
                *final(self) == c2 && m2 == mem@ && cycles == cy
            }),
    {
        proof {
            reveal(sem_lax);
        }
        let v = self.operand_value(mem, res);
        self.registers.a = v;
        self.registers.x = v;
        self.registers.update_nz(v);
        cyc
    }

    /// SAX.
    fn op_sax(&mut self, mem: &mut Mem, res: &Resolved, cyc: u8) -> (cycles: u8)
        requires
            old(mem).wf(),
        ensures
            final(mem).wf(),
            ({
                let (c2, m2, cy) = sem_sax(*old(self), old(mem)@, old(self).registers, *res, cyc);
                *final(self) == c2 && final(mem)@ == m2 && cycles == cy
            }),
    {
        proof {
            reveal(sem_sax);
        }
        let v = self.registers.a & self.registers.x;
        self.write_operand(mem, res, v);
        cyc
    }

    /// DCP.
    fn op_dcp(&mut self, mem: &mut Mem, res: &Resolved, cyc: u8) -> (cycles: u8)
        requires
            old(mem).wf(),
        ensures
            final(mem).wf(),
            ({
                let (c2, m2, cy) = sem_dcp(*old(self), old(mem)@, old(self).registers, *res, cyc);
                *final(self) == c2 && final(mem)@ == m2 && cycles == cy
            }),
    {
        proof {
            reveal(sem_dcp);
        }
        let a0 = self.registers.a;
        let v2 = self.operand_value(mem, res).wrapping_sub(1);
        self.write_operand(mem, res, v2);
        let (cf, zf, nf) = compare_vals(a0, v2);
        self.registers.status.carry = cf;
        self.registers.status.zero = zf;
        self.registers.status.negative = nf;
        cyc
    }

    /// ISB.
    fn op_isb(&mut self, mem: &mut Mem, res: &Resolved, cyc: u8) -> (cycles: u8)
        requires
            old(mem).wf(),
        ensures
            final(mem).wf(),
            ({
                let (c2, m2, cy) = sem_isb(*old(self), old(mem)@, old(self).registers, *res, cyc);
                *final(self) == c2 && final(mem)@ == m2 && cycles == cy
            }),
    {
        proof {
            reveal(sem_isb);
        }
        let a0 = self.registers.a;
        let v2 = self.operand_value(mem, res).wrapping_add(1);
        self.write_operand(mem, res, v2);
        let out = sbc(a0, v2, self.registers.status.carry, self.registers.status.decimal);
        self.apply_alu_out(&out);
        cyc
    }

    /// SLO/RLA/SRE.
    fn op_shift_logic(&mut self, mem: &mut Mem, skind: ShiftKind, lkind: LogicKind, res: &Resolved, cyc: u8) -> (cycles: u8)
        requires
            old(mem).wf(),
        ensures
            final(mem).wf(),
            ({
                let (c2, m2, cy) = sem_shift_logic(*old(self), old(mem)@, skind, lkind, old(self).registers, *res, cyc);
                *final(self) == c2 && final(mem)@ == m2 && cycles == cy
            }),
    {
        proof {
            reveal(sem_shift_logic);
        }
        let a0 = self.registers.a;
        let v = self.operand_value(mem, res);
        let (sres, cout) = shift_val(skind, v, self.registers.status.carry);
        self.write_operand(mem, res, sres);
        let a2 = logic_val(lkind, a0, sres);
        self.registers.a = a2;
        self.registers.status.carry = cout;
        self.registers.status.zero = a2 == 0;
        self.registers.status.negative = a2 >= 128;
        cyc
    }

    /// RRA.
    fn op_rra(&mut self, mem: &mut Mem, res: &Resolved, cyc: u8) -> (cycles: u8)
        requires
            old(mem).wf(),
        ensures
            final(mem).wf(),
            ({
                let (c2, m2, cy) = sem_rra(*old(self), old(mem)@, old(self).registers, *res, cyc);
                *final(self) == c2 && final(mem)@ == m2 && cycles == cy
            }),
    {
        proof {
            reveal(sem_rra);
        }
        let v = self.operand_value(mem, res);
        let (sres, cout) = shift_val(ShiftKind::Ror, v, self.registers.status.carry);
        self.write_operand(mem, res, sres);
        let out = adc(self.registers.a, sres, cout, self.registers.status.decimal);
        self.apply_alu_out(&out);
        cyc
    }

    /// The operand value for the resolved addressing: the addressed byte,
    /// or the accumulator.
    fn operand_value(&self, mem: &Mem, res: &Resolved) -> (v: u8)
        requires
            mem.wf(),
        ensures
            v == operand(self.registers, *res, mem@),
    {
        match res.addr {
            Some(a) => mem.read(a),
            None => self.registers.a,
        }
    }

    /// Writes a result back to the addressed byte, or to the accumulator.
    fn write_operand(&mut self, mem: &mut Mem, res: &Resolved, v: u8)
        requires
            old(mem).wf(),
        ensures
            final(mem).wf(),
            ({
                let (r2, m2) = writeback(old(self).registers, *res, old(mem)@, v);
                *final(self) == (CPU { registers: r2, ..*old(self) }) && final(mem)@ == m2
            }),
    {
        match res.addr {
            Some(a) => mem.write(a, v),
            None => self.registers.a = v,
        }
    }

    /// One 8-bit data register.
    fn reg_value(&self, reg: Reg) -> (v: u8)
        ensures
            v == reg_val(self.registers, reg),
    {
        match reg {
            Reg::A => self.registers.a,
            Reg::X => self.registers.x,
            Reg::Y => self.registers.y,
        }
    }

    /// Replaces one 8-bit data register.
    fn set_reg(&mut self, reg: Reg, v: u8)
        ensures
            *final(self) == (CPU { registers: with_reg(old(self).registers, reg, v), ..*old(
                self,
            ) }),
    {
        match reg {
            Reg::A => self.registers.a = v,
            Reg::X => self.registers.x = v,
            Reg::Y => self.registers.y = v,
        }
    }

    /// Replaces the accumulator and the four arithmetic flags from an ALU
    /// result.
    fn apply_alu_out(&mut self, out: &AluOut)
        ensures
            *final(self) == (CPU { registers: apply_alu(old(self).registers, *out), ..*old(
                self,
            ) }),
    {
        self.registers.a = out.res;
        self.registers.status.carry = out.carry;
        self.registers.status.zero = out.zero;
        self.registers.status.overflow = out.overflow;
        self.registers.status.negative = out.negative;
    }
}

/// The semantic routine actually run for a decoded instruction under the
/// configured policy.
fn effective_op(i: &Instr, p: IllegalPolicy) -> (o: Op)
    ensures
        o == spec_effective(*i, p),
{
    if i.documented {
        i.op
    } else {
        match p {
            IllegalPolicy::Faithful => i.op,
            IllegalPolicy::NopBytes => Op::Nop,
        }
    }
}

/// Two consecutive resets without an intervening step leave exactly the
/// state one reset leaves: the register file after a reset depends only on
/// memory, never on what went before.
pub proof fn lemma_reset_idempotent(c: CPU, m: Seq<u8>)
    ensures
        spec_reset(spec_reset(c, m), m) == spec_reset(c, m),
{
}

/// BRK pushes exactly PCH, PCL, then the flags byte (break bit set) — three
/// bytes in that order — sets Interrupt-disable, and loads the PC from
/// 0xFFFE/0xFFFF; an RTI executed next exactly reverses it: PC resumes two
/// bytes past the BRK, and the flags, stack pointer, A, X and Y all return
/// to their old values.
pub proof fn lemma_brk_rti_round_trip(c: CPU, m: Seq<u8>)
    requires
        m.len() == 0x10000,
        !c.nmi_pending,
        !c.irq_pending,
        mrd(m, c.registers.pc) == 0x00,
        ({
            let (c1, m1, cy1) = spec_step(c, m);
            mrd(m1, c1.registers.pc) == 0x40
        }),
    ensures
        ({
            let (c1, m1, cy1) = spec_step(c, m);
            let (c2, m2, cy2) = spec_step(c1, m1);
            let sp = c.registers.sp;
            let pcret = c.registers.pc.wrapping_add(1).wrapping_add(1);
            &&& cy1 == 7
            &&& m1 == m.update(0x100 + sp, (pcret / 256) as u8).update(
                0x100 + sp.wrapping_sub(1),
                (pcret % 256) as u8,
            ).update(
                0x100 + sp.wrapping_sub(1).wrapping_sub(1),
                flags_to_byte(c.registers.status, true),
            )
            &&& c1.registers.status.interrupt_disable
            &&& c1.registers.pc == mrd16(m1, IRQ_VECTOR)
            &&& c1.registers.sp == sp.wrapping_sub(1).wrapping_sub(1).wrapping_sub(1)
            &&& cy2 == 6
            &&& m2 == m1
            &&& c2.registers.pc == pcret
            &&& c2.registers.status == c.registers.status
            &&& c2.registers.sp == sp
            &&& c2.registers.a == c.registers.a
            &&& c2.registers.x == c.registers.x
            &&& c2.registers.y == c.registers.y
        }),
{
    reveal(spec_decode);
    reveal(spec_interrupt);
    reveal(sem_rti);
    crate::registers::lemma_flags_byte_round_trip(c.registers.status, true);
    let (c1, m1, cy1) = spec_step(c, m);
    let (c2, m2, cy2) = spec_step(c1, m1);
    let sp = c.registers.sp;
    let packed = flags_to_byte(c.registers.status, true);
    assert(byte_to_flags(packed, c1.registers.status) == byte_to_flags(
        packed,
        c.registers.status,
    ));
}

} // verus!
