use mos6502::registers::{Registers, StatusFlag};

#[test]
fn new_registers_defaults() {
    let r = Registers::new();
    assert_eq!(r.pc, 0);
    assert_eq!(r.sp, 0xFD);
    assert_eq!(r.a, 0);
    assert_eq!(r.x, 0);
    assert_eq!(r.y, 0);
    assert!(!r.get_flag(StatusFlag::Carry));
    assert!(!r.get_flag(StatusFlag::Negative));
}

#[test]
fn set_and_get_each_flag() {
    let flags = [
        StatusFlag::Carry,
        StatusFlag::Zero,
        StatusFlag::InterruptDisable,
        StatusFlag::Decimal,
        StatusFlag::BrkCommand,
        StatusFlag::Unused,
        StatusFlag::Overflow,
        StatusFlag::Negative,
    ];
    let mut r = Registers::new();
    for &f in flags.iter() {
        assert!(!r.get_flag(f));
        r.set_flag(f, true);
        assert!(r.get_flag(f));
        r.set_flag(f, false);
        assert!(!r.get_flag(f));
    }
}

#[test]
fn update_nz_zero_and_negative() {
    let mut r = Registers::new();
    r.update_nz(0x00);
    assert!(r.get_flag(StatusFlag::Zero));
    assert!(!r.get_flag(StatusFlag::Negative));
    r.update_nz(0x80);
    assert!(!r.get_flag(StatusFlag::Zero));
    assert!(r.get_flag(StatusFlag::Negative));
    r.update_nz(0x7F);
    assert!(!r.get_flag(StatusFlag::Zero));
    assert!(!r.get_flag(StatusFlag::Negative));
}

#[test]
fn update_nz_leaves_other_flags_alone() {
    let mut r = Registers::new();
    r.set_flag(StatusFlag::Carry, true);
    r.set_flag(StatusFlag::Overflow, true);
    r.set_flag(StatusFlag::Decimal, true);
    r.update_nz(0x00);
    assert!(r.get_flag(StatusFlag::Carry));
    assert!(r.get_flag(StatusFlag::Overflow));
    assert!(r.get_flag(StatusFlag::Decimal));
    r.update_nz(0xFF);
    assert!(r.get_flag(StatusFlag::Carry));
    assert!(r.get_flag(StatusFlag::Overflow));
}

#[test]
fn status_byte_always_shows_bit_5() {
    let mut r = Registers::new();
    assert_eq!(r.status_byte(), 0x20);
    r.set_flag(StatusFlag::Carry, true);
    r.set_flag(StatusFlag::Negative, true);
    assert_eq!(r.status_byte(), 0xA1);
    r.set_flag(StatusFlag::Zero, true);
    r.set_flag(StatusFlag::InterruptDisable, true);
    assert_eq!(r.status_byte(), 0xA7);
}
