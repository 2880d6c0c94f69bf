//! Addressing-mode resolution: from the current PC and index registers to
//! the effective operand address, the page-boundary-crossed signal, and the
//! PC after the operand bytes.
//!
//! Three hardware behaviours are reproduced deliberately:
//! - zero-page indexing and the indexed-indirect pointer wrap within page 0
//!   (adding the index never carries into page 1);
//! - absolute-indexed and indirect-indexed forms report a crossing when the
//!   indexed address leaves the base address's page;
//! - indirect addressing fetches the pointer's high byte from the start of
//!   the pointer's own page when its low byte is 0xFF (the JMP ($xxFF) bug).

use vstd::prelude::*;
use crate::mem::Mem;
use crate::opcodes::Mode;

verus! {

/// The byte of memory at a 16-bit address.
pub open spec fn mrd(m: Seq<u8>, a: u16) -> u8 {
    m[a as int]
}

/// A little-endian 16-bit value read at `a`, the high byte at `a + 1`
/// wrapping around the top of the address space.
pub open spec fn mrd16(m: Seq<u8>, a: u16) -> u16 {
    (mrd(m, a) + 256 * mrd(m, a.wrapping_add(1))) as u16
}

/// Whether two addresses lie in the same 256-byte page.
pub open spec fn same_page(a: u16, b: u16) -> bool {
    a / 256 == b / 256
}

/// The outcome of addressing resolution: the effective operand address
/// (absent for Implied and Accumulator), whether a page boundary was
/// crossed, and the PC after the operand bytes.  For Relative, `addr` is
/// the branch target and `crossed` compares it to the PC after the
/// instruction.
#[derive(Clone, Copy, Debug)]
pub struct Resolved {
    pub addr: Option<u16>,
    pub crossed: bool,
    pub next_pc: u16,
}

/// What resolving a mode yields, given the PC just past the opcode byte,
/// the index registers, and memory.
pub open spec fn spec_resolve(mode: Mode, pc: u16, x: u8, y: u8, m: Seq<u8>) -> Resolved {
    match mode {
        Mode::Imp | Mode::Acc => Resolved { addr: None, crossed: false, next_pc: pc },
        Mode::Imm => Resolved { addr: Some(pc), crossed: false, next_pc: pc.wrapping_add(1) },
        Mode::Zp => Resolved {
            addr: Some(mrd(m, pc) as u16),
            crossed: false,
            next_pc: pc.wrapping_add(1),
        },
        Mode::ZpX => Resolved {
            addr: Some(mrd(m, pc).wrapping_add(x) as u16),
            crossed: false,
            next_pc: pc.wrapping_add(1),
        },
        Mode::ZpY => Resolved {
            addr: Some(mrd(m, pc).wrapping_add(y) as u16),
            crossed: false,
            next_pc: pc.wrapping_add(1),
        },
        Mode::Abs => Resolved {
            addr: Some(mrd16(m, pc)),
            crossed: false,
            next_pc: pc.wrapping_add(2),
        },
        Mode::AbsX => {
            let base = mrd16(m, pc);
            let a = base.wrapping_add(x as u16);
            Resolved { addr: Some(a), crossed: !same_page(base, a), next_pc: pc.wrapping_add(2) }
        },
        Mode::AbsY => {
            let base = mrd16(m, pc);
            let a = base.wrapping_add(y as u16);
            Resolved { addr: Some(a), crossed: !same_page(base, a), next_pc: pc.wrapping_add(2) }
        },
        Mode::Ind => {
            let ptr = mrd16(m, pc);
            let hi_at = ((ptr / 256) * 256 + (ptr % 256 + 1) % 256) as u16;
            let a = (mrd(m, ptr) + 256 * mrd(m, hi_at)) as u16;
            Resolved { addr: Some(a), crossed: false, next_pc: pc.wrapping_add(2) }
        },
        Mode::IndX => {
            let zp = mrd(m, pc).wrapping_add(x);
            let a = (mrd(m, zp as u16) + 256 * mrd(m, zp.wrapping_add(1) as u16)) as u16;
            Resolved { addr: Some(a), crossed: false, next_pc: pc.wrapping_add(1) }
        },
        Mode::IndY => {
            let zp = mrd(m, pc);
            let base = (mrd(m, zp as u16) + 256 * mrd(m, zp.wrapping_add(1) as u16)) as u16;
            let a = base.wrapping_add(y as u16);
            Resolved { addr: Some(a), crossed: !same_page(base, a), next_pc: pc.wrapping_add(1) }
        },
        Mode::Rel => {
            let off = mrd(m, pc);
            let base = pc.wrapping_add(1);
            let target = if off < 128 {
                base.wrapping_add(off as u16)
            } else {
                base.wrapping_add(off as u16).wrapping_sub(256)
            };
            Resolved { addr: Some(target), crossed: !same_page(base, target), next_pc: base }
        },
    }
}

/// Resolves an addressing mode against its specification.
pub fn resolve(mem: &Mem, mode: Mode, pc: u16, x: u8, y: u8) -> (r: Resolved)
    requires
        mem.wf(),
    ensures
        r == spec_resolve(mode, pc, x, y, mem@),
{
    match mode {
        Mode::Imp | Mode::Acc => Resolved { addr: None, crossed: false, next_pc: pc },
        Mode::Imm => Resolved { addr: Some(pc), crossed: false, next_pc: pc.wrapping_add(1) },
        Mode::Zp => Resolved {
            addr: Some(mem.read(pc) as u16),
            crossed: false,
            next_pc: pc.wrapping_add(1),
        },
        Mode::ZpX => Resolved {
            addr: Some(mem.read(pc).wrapping_add(x) as u16),
            crossed: false,
            next_pc: pc.wrapping_add(1),
        },
        Mode::ZpY => Resolved {
            addr: Some(mem.read(pc).wrapping_add(y) as u16),
            crossed: false,
            next_pc: pc.wrapping_add(1),
        },
        Mode::Abs => Resolved {
            addr: Some(read16(mem, pc)),
            crossed: false,
            next_pc: pc.wrapping_add(2),
        },
        Mode::AbsX => {
            let base = read16(mem, pc);
            let a = base.wrapping_add(x as u16);
            Resolved { addr: Some(a), crossed: base / 256 != a / 256, next_pc: pc.wrapping_add(2) }
        },
        Mode::AbsY => {
            let base = read16(mem, pc);
            let a = base.wrapping_add(y as u16);
            Resolved { addr: Some(a), crossed: base / 256 != a / 256, next_pc: pc.wrapping_add(2) }
        },
        Mode::Ind => {
            let ptr = read16(mem, pc);
            let hi_at: u16 = (ptr / 256) * 256 + (ptr % 256 + 1) % 256;
            let a: u16 = mem.read(ptr) as u16 + 256 * (mem.read(hi_at) as u16);
            Resolved { addr: Some(a), crossed: false, next_pc: pc.wrapping_add(2) }
        },
        Mode::IndX => {
            let zp = mem.read(pc).wrapping_add(x);
            let a: u16 = mem.read(zp as u16) as u16
                + 256 * (mem.read(zp.wrapping_add(1) as u16) as u16);
            Resolved { addr: Some(a), crossed: false, next_pc: pc.wrapping_add(1) }
        },
        Mode::IndY => {
            let zp = mem.read(pc);
            let base: u16 = mem.read(zp as u16) as u16
                + 256 * (mem.read(zp.wrapping_add(1) as u16) as u16);
            let a = base.wrapping_add(y as u16);
            Resolved { addr: Some(a), crossed: base / 256 != a / 256, next_pc: pc.wrapping_add(1) }
        },
        Mode::Rel => {
            let off = mem.read(pc);
            let base = pc.wrapping_add(1);
            let target = if off < 128 {
                base.wrapping_add(off as u16)
            } else {
                base.wrapping_add(off as u16).wrapping_sub(256)
            };
            Resolved {
                addr: Some(target),
                crossed: base / 256 != target / 256,
                next_pc: base,
            }
        },
    }
}

/// A little-endian 16-bit read against `mrd16`.
pub fn read16(mem: &Mem, a: u16) -> (v: u16)
    requires
        mem.wf(),
    ensures
        v == mrd16(mem@, a),
{
    mem.read(a) as u16 + 256 * (mem.read(a.wrapping_add(1)) as u16)
}

/// Zero-page indexing wraps within page 0: whatever the base byte and the
/// index, the effective address of the ZeroPage,X / ZeroPage,Y forms, and
/// the pointer bytes of the indexed-indirect form, never leave page 0.
pub proof fn lemma_zero_page_wraparound(pc: u16, x: u8, y: u8, m: Seq<u8>)
    ensures
        spec_resolve(Mode::ZpX, pc, x, y, m).addr matches Some(a) && a < 0x100,
        spec_resolve(Mode::ZpY, pc, x, y, m).addr matches Some(a) && a < 0x100,
        spec_resolve(Mode::IndX, pc, x, y, m).addr == (Some(
            (mrd(m, mrd(m, pc).wrapping_add(x) as u16)
                + 256 * mrd(m, mrd(m, pc).wrapping_add(x).wrapping_add(1) as u16)) as u16,
        )),
{
}

/// The indirect page-wrap bug: when the pointer's low byte is 0xFF, the high
/// byte of the target comes from the start of the pointer's own page, not
/// from the next page.
pub proof fn lemma_indirect_page_wrap_bug(pc: u16, x: u8, y: u8, m: Seq<u8>)
    requires
        mrd16(m, pc) % 256 == 0xFF,
    ensures
        spec_resolve(Mode::Ind, pc, x, y, m).addr == (Some(
            (mrd(m, mrd16(m, pc)) + 256 * mrd(m, ((mrd16(m, pc) / 256) * 256) as u16)) as u16,
        )),
{
    let ptr = mrd16(m, pc);
    assert((ptr % 256 + 1) % 256 == 0);
}

} // verus!
