//! The arithmetic and flag computations shared by the opcode families:
//! add/subtract with carry (binary and packed-BCD), shifts and rotates,
//! compares, and the bitwise accumulator operations.
//!
//! The packed-BCD forms reproduce the documented NMOS behaviour, quirks
//! included: ADC takes Zero from the binary sum and Negative/Overflow from
//! the intermediate high nibble, while SBC takes every flag from the binary
//! difference and only adjusts the result digits.

use vstd::prelude::*;
use crate::opcodes::{LogicKind, ShiftKind};

verus! {

/// The result of an ADC or SBC: the new accumulator value and the four
/// arithmetic flags.
#[derive(Clone, Copy, PartialEq, Eq, Structural, Debug)]
pub struct AluOut {
    pub res: u8,
    pub carry: bool,
    pub overflow: bool,
    pub zero: bool,
    pub negative: bool,
}

/// Binary add with carry: Carry is the unsigned carry out of bit 7 and
/// Overflow the signed overflow of the 8-bit sum.
pub open spec fn spec_adc_bin(a: u8, m: u8, cin: bool) -> AluOut {
    let t = a + m + (if cin { 1int } else { 0int });
    let res = (t % 256) as u8;
    AluOut {
        res,
        carry: t > 255,
        overflow: ((a < 128) == (m < 128)) && ((res < 128) != (a < 128)),
        zero: res == 0,
        negative: res >= 128,
    }
}

/// Packed-BCD add with carry, per the documented NMOS rule: Zero from the
/// binary sum; Negative and Overflow from the high nibble after the low
/// adjust but before the high adjust; Carry from the decimal result.
pub open spec fn spec_adc_dec(a: u8, m: u8, cin: bool) -> AluOut {
    let c = if cin { 1int } else { 0int };
    let bin = (a + m + c) % 256;
    let lo = a % 16 + m % 16 + c;
    let lo2 = if lo > 9 { lo + 6 } else { lo };
    let hi = a / 16 + m / 16 + (if lo2 > 15 { 1int } else { 0int });
    let hi2 = if hi > 9 { hi + 6 } else { hi };
    AluOut {
        res: ((hi2 % 16) * 16 + lo2 % 16) as u8,
        carry: hi > 9,
        overflow: ((a < 128) == (m < 128)) && ((hi % 16 >= 8) != (a < 128)),
        zero: bin == 0,
        negative: hi % 16 >= 8,
    }
}

/// ADC, honouring the Decimal flag.
pub open spec fn spec_adc(a: u8, m: u8, cin: bool, decimal: bool) -> AluOut {
    if decimal {
        spec_adc_dec(a, m, cin)
    } else {
        spec_adc_bin(a, m, cin)
    }
}

/// Binary subtract with borrow (carry clear means borrow): computed as the
/// add of the one's complement, so Carry is set when no borrow occurred.
pub open spec fn spec_sbc_bin(a: u8, m: u8, cin: bool) -> AluOut {
    let t = a + (255 - m) + (if cin { 1int } else { 0int });
    let res = (t % 256) as u8;
    AluOut {
        res,
        carry: t > 255,
        overflow: ((a < 128) != (m < 128)) && ((res < 128) != (a < 128)),
        zero: res == 0,
        negative: res >= 128,
    }
}

/// Packed-BCD subtract, per the documented NMOS rule: every flag comes from
/// the binary difference; only the result digits are decimal-adjusted, each
/// nibble by 6 when it borrowed.
pub open spec fn spec_sbc_dec(a: u8, m: u8, cin: bool) -> AluOut {
    let c = if cin { 1int } else { 0int };
    let bin = spec_sbc_bin(a, m, cin);
    let lo_diff = a % 16 + 16 - m % 16 - 1 + c;
    let borrow_lo = lo_diff < 16;
    let low4 = if borrow_lo { (lo_diff + 10) % 16 } else { lo_diff % 16 };
    let hi_diff = a / 16 + 16 - m / 16 - (if borrow_lo { 1int } else { 0int });
    let borrow_hi = hi_diff < 16;
    let high4 = if borrow_hi { (hi_diff + 10) % 16 } else { hi_diff % 16 };
    AluOut { res: (high4 * 16 + low4) as u8, ..bin }
}

/// SBC, honouring the Decimal flag.
pub open spec fn spec_sbc(a: u8, m: u8, cin: bool, decimal: bool) -> AluOut {
    if decimal {
        spec_sbc_dec(a, m, cin)
    } else {
        spec_sbc_bin(a, m, cin)
    }
}

/// A shift or rotate: the shifted value and the bit shifted out, which
/// always lands in Carry.  Rotates fill the vacated bit from `cin`; shifts
/// fill it with zero.
pub open spec fn spec_shift(kind: ShiftKind, v: u8, cin: bool) -> (u8, bool) {
    match kind {
        ShiftKind::Asl => (((v * 2) % 256) as u8, v >= 128),
        ShiftKind::Lsr => (v / 2, v % 2 == 1),
        ShiftKind::Rol => (((v * 2 + (if cin { 1int } else { 0int })) % 256) as u8, v >= 128),
        ShiftKind::Ror => ((v / 2 + (if cin { 128int } else { 0int })) as u8, v % 2 == 1),
    }
}

/// AND, ORA or EOR of the accumulator with the operand.
pub open spec fn spec_logic(kind: LogicKind, a: u8, m: u8) -> u8 {
    match kind {
        LogicKind::And => a & m,
        LogicKind::Or => a | m,
        LogicKind::Xor => a ^ m,
    }
}

/// CMP/CPX/CPY flags: the register minus the operand, not stored; Carry set
/// when the register is at least the operand (unsigned).
pub open spec fn spec_compare(r: u8, m: u8) -> (bool, bool, bool) {
    let diff = ((r + 256 - m) % 256) as u8;
    (r >= m, r == m, diff >= 128)
}

/// Executes an ADC against its specification.
pub fn adc(a: u8, m: u8, cin: bool, decimal: bool) -> (out: AluOut)
    ensures
        out == spec_adc(a, m, cin, decimal),
{
    let c: u16 = if cin { 1 } else { 0 };
    if decimal {
        let bin: u16 = (a as u16 + m as u16 + c) % 256;
        let lo: u16 = (a % 16) as u16 + (m % 16) as u16 + c;
        let lo2: u16 = if lo > 9 { lo + 6 } else { lo };
        let hi: u16 = (a / 16) as u16 + (m / 16) as u16 + (if lo2 > 15 { 1 } else { 0 });
        let hi2: u16 = if hi > 9 { hi + 6 } else { hi };
        AluOut {
            res: ((hi2 % 16) * 16 + lo2 % 16) as u8,
            carry: hi > 9,
            overflow: ((a < 128) == (m < 128)) && ((hi % 16 >= 8) != (a < 128)),
            zero: bin == 0,
            negative: hi % 16 >= 8,
        }
    } else {
        let t: u16 = a as u16 + m as u16 + c;
        let res: u8 = (t % 256) as u8;
        AluOut {
            res,
            carry: t > 255,
            overflow: ((a < 128) == (m < 128)) && ((res < 128) != (a < 128)),
            zero: res == 0,
            negative: res >= 128,
        }
    }
}

/// Executes an SBC against its specification.
pub fn sbc(a: u8, m: u8, cin: bool, decimal: bool) -> (out: AluOut)
    ensures
        out == spec_sbc(a, m, cin, decimal),
{
    let c: u16 = if cin { 1 } else { 0 };
    let t: u16 = a as u16 + (255 - m) as u16 + c;
    let res: u8 = (t % 256) as u8;
    let bin = AluOut {
        res,
        carry: t > 255,
        overflow: ((a < 128) != (m < 128)) && ((res < 128) != (a < 128)),
        zero: res == 0,
        negative: res >= 128,
    };
    if decimal {
        let lo_diff: u16 = (a % 16) as u16 + 16 - (m % 16) as u16 - 1 + c;
        let borrow_lo = lo_diff < 16;
        let low4: u16 = if borrow_lo { (lo_diff + 10) % 16 } else { lo_diff % 16 };
        let hi_diff: u16 = (a / 16) as u16 + 16 - (m / 16) as u16 - (if borrow_lo { 1 } else { 0 });
        let borrow_hi = hi_diff < 16;
        let high4: u16 = if borrow_hi { (hi_diff + 10) % 16 } else { hi_diff % 16 };
        AluOut { res: (high4 * 16 + low4) as u8, ..bin }
    } else {
        bin
    }
}

/// Executes a shift or rotate against its specification.
pub fn shift_val(kind: ShiftKind, v: u8, cin: bool) -> (out: (u8, bool))
    ensures
        out == spec_shift(kind, v, cin),
{
    match kind {
        ShiftKind::Asl => ((((v as u16) * 2 % 256) as u8), v >= 128),
        ShiftKind::Lsr => (v / 2, v % 2 == 1),
        ShiftKind::Rol => {
            let c: u16 = if cin { 1 } else { 0 };
            ((((v as u16) * 2 + c) % 256) as u8, v >= 128)
        },
        ShiftKind::Ror => {
            let c: u8 = if cin { 128 } else { 0 };
            (v / 2 + c, v % 2 == 1)
        },
    }
}

/// Executes AND/ORA/EOR against its specification.
pub fn logic_val(kind: LogicKind, a: u8, m: u8) -> (r: u8)
    ensures
        r == spec_logic(kind, a, m),
{
    match kind {
        LogicKind::And => a & m,
        LogicKind::Or => a | m,
        LogicKind::Xor => a ^ m,
    }
}

/// Executes a compare against its specification, returning (carry, zero,
/// negative).
pub fn compare_vals(r: u8, m: u8) -> (out: (bool, bool, bool))
    ensures
        out == spec_compare(r, m),
{
    let diff: u8 = ((r as u16 + 256 - m as u16) % 256) as u8;
    (r >= m, r == m, diff >= 128)
}

/// The value of `v` read as an 8-bit two's-complement integer.
pub open spec fn signed_val(v: u8) -> int {
    if v < 128 {
        v as int
    } else {
        v - 256
    }
}

/// ADC's Overflow flag is exactly signed overflow: it is set iff the sum of
/// the operands as two's-complement integers, plus the carry in, falls
/// outside -128..=127.
pub proof fn lemma_adc_overflow_signed(a: u8, m: u8, cin: bool)
    ensures
        spec_adc_bin(a, m, cin).overflow <==> !{
            let s = signed_val(a) + signed_val(m) + (if cin { 1int } else { 0int });
            -128 <= s <= 127
        },
{
}

/// SBC's Overflow flag is exactly signed overflow of the subtraction: it is
/// set iff the difference of the operands as two's-complement integers,
/// minus the borrow, falls outside -128..=127.
pub proof fn lemma_sbc_overflow_signed(a: u8, m: u8, cin: bool)
    ensures
        spec_sbc_bin(a, m, cin).overflow <==> !{
            let s = signed_val(a) - signed_val(m) - (if cin { 0int } else { 1int });
            -128 <= s <= 127
        },
{
}

} // verus!
