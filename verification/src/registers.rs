//! The 6502 register file and status flags.
//!
//! The status register is held as one named boolean per bit rather than a
//! packed byte, so that every flag update is a plain field update.  Exact bit
//! positions matter only when the flags are pushed to the stack or read
//! externally; `flags_to_byte` and `byte_to_flags` fix that encoding.
//!
//! Bit 5 (Unused) reads as 1 whenever the flags leave the register as a byte,
//! and bit 4 (Break) records how a pushed byte got onto the stack (software
//! BRK/PHP versus a hardware interrupt); neither is ongoing processor state,
//! so pulling flags with PLP or RTI leaves the stored `brk_command` and
//! `unused` fields alone.

use vstd::prelude::*;

verus! {

/// One of the eight status-register bit positions.
#[derive(Clone, Copy, PartialEq, Eq, Structural, Debug)]
pub enum StatusFlag {
    /// Bit 0: carry out of bit 7 (or inverted borrow).
    Carry,
    /// Bit 1: last result was zero.
    Zero,
    /// Bit 2: IRQ lines are ignored while set.
    InterruptDisable,
    /// Bit 3: ADC/SBC operate on packed BCD digits while set.
    Decimal,
    /// Bit 4: only meaningful in a pushed flags byte.
    BrkCommand,
    /// Bit 5: reads as 1 in a pushed flags byte; no behavioural effect.
    Unused,
    /// Bit 6: signed overflow of the last arithmetic result.
    Overflow,
    /// Bit 7: bit 7 of the last result.
    Negative,
}

/// The processor status register, one named field per bit.
#[derive(Clone, Copy, PartialEq, Eq, Structural, Debug)]
pub struct StatusFlags {
    pub carry: bool,
    pub zero: bool,
    pub interrupt_disable: bool,
    pub decimal: bool,
    pub brk_command: bool,
    pub unused: bool,
    pub overflow: bool,
    pub negative: bool,
}

/// The value of one named flag.
pub open spec fn spec_get_flag(f: StatusFlags, which: StatusFlag) -> bool {
    match which {
        StatusFlag::Carry => f.carry,
        StatusFlag::Zero => f.zero,
        StatusFlag::InterruptDisable => f.interrupt_disable,
        StatusFlag::Decimal => f.decimal,
        StatusFlag::BrkCommand => f.brk_command,
        StatusFlag::Unused => f.unused,
        StatusFlag::Overflow => f.overflow,
        StatusFlag::Negative => f.negative,
    }
}

/// The flags with one named flag replaced and the rest kept.
pub open spec fn spec_set_flag(f: StatusFlags, which: StatusFlag, on: bool) -> StatusFlags {
    match which {
        StatusFlag::Carry => StatusFlags { carry: on, ..f },
        StatusFlag::Zero => StatusFlags { zero: on, ..f },
        StatusFlag::InterruptDisable => StatusFlags { interrupt_disable: on, ..f },
        StatusFlag::Decimal => StatusFlags { decimal: on, ..f },
        StatusFlag::BrkCommand => StatusFlags { brk_command: on, ..f },
        StatusFlag::Unused => StatusFlags { unused: on, ..f },
        StatusFlag::Overflow => StatusFlags { overflow: on, ..f },
        StatusFlag::Negative => StatusFlags { negative: on, ..f },
    }
}

/// The flags packed into a byte as the hardware pushes them: bit 5 is always
/// 1, and bit 4 is the given provenance bit (1 for BRK/PHP, 0 for NMI/IRQ).
pub open spec fn flags_to_byte(f: StatusFlags, brk_bit: bool) -> u8 {
    ((if f.carry { 1int } else { 0int })
        + (if f.zero { 2int } else { 0int })
        + (if f.interrupt_disable { 4int } else { 0int })
        + (if f.decimal { 8int } else { 0int })
        + (if brk_bit { 16int } else { 0int })
        + 32int
        + (if f.overflow { 64int } else { 0int })
        + (if f.negative { 128int } else { 0int })) as u8
}

/// Whether the bit of the given weight (a power of two) is set in `v`.
pub open spec fn bit_of(v: u8, weight: u8) -> bool {
    (v / weight) % 2 == 1
}

/// The flags a pulled byte restores.  Bits 4 and 5 carry no processor state,
/// so the stored `brk_command` and `unused` fields are kept from `old_f`.
pub open spec fn byte_to_flags(v: u8, old_f: StatusFlags) -> StatusFlags {
    StatusFlags {
        carry: bit_of(v, 1),
        zero: bit_of(v, 2),
        interrupt_disable: bit_of(v, 4),
        decimal: bit_of(v, 8),
        brk_command: old_f.brk_command,
        unused: old_f.unused,
        overflow: bit_of(v, 64),
        negative: bit_of(v, 128),
    }
}

/// Zero and Negative replaced from an 8-bit result, all other flags kept.
pub open spec fn spec_update_nz(f: StatusFlags, value: u8) -> StatusFlags {
    StatusFlags { zero: value == 0, negative: value >= 128, ..f }
}

/// The 6502 register file: program counter, stack pointer, accumulator, the
/// two index registers, and the status flags.
///
/// The stack pointer is an offset into page 1 (0x0100..=0x01FF) and wraps
/// modulo 256 with no protection against exhaustion.
#[derive(Clone, Copy, PartialEq, Eq, Structural, Debug)]
pub struct Registers {
    pub pc: u16,
    pub sp: u8,
    pub a: u8,
    pub x: u8,
    pub y: u8,
    pub status: StatusFlags,
}

/// All eight flags clear.
pub open spec fn spec_flags_clear() -> StatusFlags {
    StatusFlags {
        carry: false,
        zero: false,
        interrupt_disable: false,
        decimal: false,
        brk_command: false,
        unused: false,
        overflow: false,
        negative: false,
    }
}

/// A register file as it stands before any reset: PC 0, SP 0xFD (the stack
/// grows down from there), all other registers and flags clear.
pub open spec fn spec_registers_init() -> Registers {
    Registers { pc: 0, sp: 0xFD, a: 0, x: 0, y: 0, status: spec_flags_clear() }
}

impl Registers {
    /// A register file as it stands before any reset: PC 0, SP 0xFD (the
    /// stack grows down from there), all other registers and flags clear.
    pub fn new() -> (r: Registers)
        ensures
            r == spec_registers_init(),
    {
        Registers {
            pc: 0,
            sp: 0xFD,
            a: 0,
            x: 0,
            y: 0,
            status: StatusFlags {
                carry: false,
                zero: false,
                interrupt_disable: false,
                decimal: false,
                brk_command: false,
                unused: false,
                overflow: false,
                negative: false,
            },
        }
    }

    /// Sets or clears one named flag and touches nothing else.
    pub fn set_flag(&mut self, flag: StatusFlag, to_set: bool)
        ensures
            *final(self) == (Registers {
                status: spec_set_flag(old(self).status, flag, to_set),
                ..*old(self)
            }),
    {
        match flag {
            StatusFlag::Carry => self.status.carry = to_set,
            StatusFlag::Zero => self.status.zero = to_set,
            StatusFlag::InterruptDisable => self.status.interrupt_disable = to_set,
            StatusFlag::Decimal => self.status.decimal = to_set,
            StatusFlag::BrkCommand => self.status.brk_command = to_set,
            StatusFlag::Unused => self.status.unused = to_set,
            StatusFlag::Overflow => self.status.overflow = to_set,
            StatusFlag::Negative => self.status.negative = to_set,
        }
    }

    /// Whether one named flag is set.
    pub fn get_flag(&self, flag: StatusFlag) -> (b: bool)
        ensures
            b == spec_get_flag(self.status, flag),
    {
        match flag {
            StatusFlag::Carry => self.status.carry,
            StatusFlag::Zero => self.status.zero,
            StatusFlag::InterruptDisable => self.status.interrupt_disable,
            StatusFlag::Decimal => self.status.decimal,
            StatusFlag::BrkCommand => self.status.brk_command,
            StatusFlag::Unused => self.status.unused,
            StatusFlag::Overflow => self.status.overflow,
            StatusFlag::Negative => self.status.negative,
        }
    }

    /// Sets Zero iff `value == 0` and Negative iff bit 7 of `value` is set;
    /// every other flag and register is left unchanged.
    pub fn update_nz(&mut self, value: u8)
        ensures
            *final(self) == (Registers {
                status: spec_update_nz(old(self).status, value),
                ..*old(self)
            }),
    {
        self.status.zero = value == 0;
        self.status.negative = value >= 128;
    }

    /// The status register as a trace log or debugger shows it: bit 5 reads
    /// as 1, bit 4 as the stored break bit (clear unless set explicitly).
    pub fn status_byte(&self) -> (v: u8)
        ensures
            v == flags_to_byte(self.status, self.status.brk_command),
    {
        pack_flags(&self.status, self.status.brk_command)
    }
}

/// The flags packed into a byte for a stack push, with the given bit-4
/// provenance bit; bit 5 is always 1.
pub fn pack_flags(f: &StatusFlags, brk_bit: bool) -> (v: u8)
    ensures
        v == flags_to_byte(*f, brk_bit),
{
    let b0: u8 = if f.carry { 1 } else { 0 };
    let b1: u8 = if f.zero { 2 } else { 0 };
    let b2: u8 = if f.interrupt_disable { 4 } else { 0 };
    let b3: u8 = if f.decimal { 8 } else { 0 };
    let b4: u8 = if brk_bit { 16 } else { 0 };
    let b6: u8 = if f.overflow { 64 } else { 0 };
    let b7: u8 = if f.negative { 128 } else { 0 };
    b0 + b1 + b2 + b3 + b4 + 32 + b6 + b7
}

/// The flags a pulled byte restores; bits 4 and 5 are ignored and the stored
/// `brk_command` and `unused` fields kept, since neither is processor state.
pub fn unpack_flags(v: u8, old_f: &StatusFlags) -> (f: StatusFlags)
    ensures
        f == byte_to_flags(v, *old_f),
{
    StatusFlags {
        carry: (v / 1) % 2 == 1,
        zero: (v / 2) % 2 == 1,
        interrupt_disable: (v / 4) % 2 == 1,
        decimal: (v / 8) % 2 == 1,
        brk_command: old_f.brk_command,
        unused: old_f.unused,
        overflow: (v / 64) % 2 == 1,
        negative: (v / 128) % 2 == 1,
    }
}

/// Packing the flags and unpacking the byte restores the six stateful flags
/// exactly, whatever provenance bit the push carried.
pub proof fn lemma_flags_byte_round_trip(f: StatusFlags, brk_bit: bool)
    ensures
        byte_to_flags(flags_to_byte(f, brk_bit), f) == f,
{
    let c: u8 = if f.carry { 1 } else { 0 };
    let z: u8 = if f.zero { 1 } else { 0 };
    let i: u8 = if f.interrupt_disable { 1 } else { 0 };
    let d: u8 = if f.decimal { 1 } else { 0 };
    let b: u8 = if brk_bit { 1 } else { 0 };
    let v: u8 = if f.overflow { 1 } else { 0 };
    let n: u8 = if f.negative { 1 } else { 0 };
    let packed: u8 = flags_to_byte(f, brk_bit);
    assert(packed == c + 2 * z + 4 * i + 8 * d + 16 * b + 32 + 64 * v + 128 * n);
    assert(c <= 1 && z <= 1 && i <= 1 && d <= 1 && b <= 1 && v <= 1 && n <= 1 ==> {
        let p = (c + 2 * z + 4 * i + 8 * d + 16 * b + 32 + 64 * v + 128 * n) as u8;
        (p / 1) % 2 == c && (p / 2) % 2 == z && (p / 4) % 2 == i && (p / 8) % 2 == d
            && (p / 64) % 2 == v && (p / 128) % 2 == n
    }) by (bit_vector);
}

} // verus!
