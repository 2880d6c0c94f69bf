use mos6502::alu::{adc, compare_vals, sbc, shift_val};
use mos6502::opcodes::ShiftKind;

#[test]
fn adc_signed_overflow_truth_table() {
    // (a, m, carry_in) -> (result, carry_out, overflow)
    let rows: [(u8, u8, bool, u8, bool, bool); 9] = [
        (0x50, 0x10, false, 0x60, false, false),
        (0x50, 0x50, false, 0xA0, false, true),
        (0x50, 0x90, false, 0xE0, false, false),
        (0x50, 0xD0, false, 0x20, true, false),
        (0xD0, 0x10, false, 0xE0, false, false),
        (0xD0, 0x50, false, 0x20, true, false),
        (0xD0, 0x90, false, 0x60, true, true),
        (0xD0, 0xD0, false, 0xA0, true, false),
        (0x7F, 0x01, false, 0x80, false, true),
    ];
    for &(a, m, cin, res, carry, overflow) in rows.iter() {
        let out = adc(a, m, cin, false);
        assert_eq!(out.res, res);
        assert_eq!(out.carry, carry);
        assert_eq!(out.overflow, overflow);
        assert_eq!(out.zero, res == 0);
        assert_eq!(out.negative, res >= 0x80);
    }
}

#[test]
fn sbc_signed_overflow_truth_table() {
    let rows: [(u8, u8, bool, u8, bool, bool); 8] = [
        (0x50, 0xF0, true, 0x60, false, false),
        (0x50, 0xB0, true, 0xA0, false, true),
        (0x50, 0x70, true, 0xE0, false, false),
        (0x50, 0x30, true, 0x20, true, false),
        (0xD0, 0xF0, true, 0xE0, false, false),
        (0xD0, 0xB0, true, 0x20, true, false),
        (0xD0, 0x70, true, 0x60, true, true),
        (0xD0, 0x30, true, 0xA0, true, false),
    ];
    for &(a, m, cin, res, carry, overflow) in rows.iter() {
        let out = sbc(a, m, cin, false);
        assert_eq!(out.res, res);
        assert_eq!(out.carry, carry);
        assert_eq!(out.overflow, overflow);
    }
}

#[test]
fn adc_with_carry_in() {
    let out = adc(0x01, 0x01, true, false);
    assert_eq!(out.res, 0x03);
    assert!(!out.carry);
    let out = adc(0xFF, 0x00, true, false);
    assert_eq!(out.res, 0x00);
    assert!(out.carry);
    assert!(out.zero);
    assert!(!out.overflow);
}

#[test]
fn adc_decimal_digits() {
    let out = adc(0x09, 0x01, false, true);
    assert_eq!(out.res, 0x10);
    assert!(!out.carry);
    let out = adc(0x99, 0x01, false, true);
    assert_eq!(out.res, 0x00);
    assert!(out.carry);
    // The documented quirk: Zero comes from the binary sum, which is 0x9A.
    assert!(!out.zero);
    // 0x0F + 0x0F behaves as the hardware does, not as clean BCD would.
    let out = adc(0x0F, 0x0F, false, true);
    assert_eq!(out.res, 0x14);
}

#[test]
fn sbc_decimal_digits() {
    let out = sbc(0x10, 0x05, true, true);
    assert_eq!(out.res, 0x05);
    assert!(out.carry);
    let out = sbc(0x00, 0x01, true, true);
    assert_eq!(out.res, 0x99);
    assert!(!out.carry);
    let out = sbc(0x20, 0x13, true, true);
    assert_eq!(out.res, 0x07);
}

#[test]
fn shifts_and_rotates() {
    assert_eq!(shift_val(ShiftKind::Asl, 0x81, false), (0x02, true));
    assert_eq!(shift_val(ShiftKind::Lsr, 0x81, false), (0x40, true));
    assert_eq!(shift_val(ShiftKind::Rol, 0x81, true), (0x03, true));
    assert_eq!(shift_val(ShiftKind::Rol, 0x40, false), (0x80, false));
    assert_eq!(shift_val(ShiftKind::Ror, 0x01, true), (0x80, true));
    assert_eq!(shift_val(ShiftKind::Ror, 0x02, false), (0x01, false));
}

#[test]
fn compare_carry_when_register_not_below() {
    // (register, operand) -> (carry, zero, negative)
    assert_eq!(compare_vals(0x10, 0x10), (true, true, false));
    assert_eq!(compare_vals(0x10, 0x0F), (true, false, false));
    assert_eq!(compare_vals(0x10, 0x11), (false, false, true));
    assert_eq!(compare_vals(0x90, 0x10), (true, false, true));
}
