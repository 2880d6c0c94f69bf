use mos6502::cpu::{IllegalPolicy, CPU};
use mos6502::mem::Mem;
use mos6502::registers::StatusFlag;

fn setup(program: &[u8], start: u16) -> (CPU, Mem) {
    let mut mem = Mem::new();
    let mut addr = start;
    for &b in program.iter() {
        mem.write(addr, b);
        addr = addr.wrapping_add(1);
    }
    let mut cpu = CPU::new();
    cpu.registers.pc = start;
    (cpu, mem)
}

#[test]
fn lda_immediate_sets_nz() {
    let (mut cpu, mut mem) = setup(&[0xA9, 0x00, 0xA9, 0x85], 0x0200);
    let cy = cpu.step(&mut mem);
    assert_eq!(cy, 2);
    assert_eq!(cpu.registers.a, 0x00);
    assert!(cpu.registers.get_flag(StatusFlag::Zero));
    let cy = cpu.step(&mut mem);
    assert_eq!(cy, 2);
    assert_eq!(cpu.registers.a, 0x85);
    assert!(cpu.registers.get_flag(StatusFlag::Negative));
    assert!(!cpu.registers.get_flag(StatusFlag::Zero));
    assert_eq!(cpu.registers.pc, 0x0204);
}

#[test]
fn indexed_indirect_wraps_in_zero_page() {
    // LDA ($FF,X) with X = 0x02: the pointer is taken from 0x0001/0x0002,
    // never from 0x0101/0x0102.
    let (mut cpu, mut mem) = setup(&[0xA1, 0xFF], 0x0200);
    cpu.registers.x = 0x02;
    mem.write(0x0001, 0x34);
    mem.write(0x0002, 0x12);
    mem.write(0x1234, 0x99);
    mem.write(0x0101, 0x55);
    mem.write(0x0102, 0x66);
    mem.write(0x6655, 0x11);
    let cy = cpu.step(&mut mem);
    assert_eq!(cy, 6);
    assert_eq!(cpu.registers.a, 0x99);
}

#[test]
fn zero_page_x_wraps_in_zero_page() {
    // LDA $FF,X with X = 0x02 reads 0x0001, not 0x0101.
    let (mut cpu, mut mem) = setup(&[0xB5, 0xFF], 0x0200);
    cpu.registers.x = 0x02;
    mem.write(0x0001, 0x42);
    mem.write(0x0101, 0x24);
    let cy = cpu.step(&mut mem);
    assert_eq!(cy, 4);
    assert_eq!(cpu.registers.a, 0x42);
}

#[test]
fn indirect_jmp_page_wrap_bug() {
    // JMP ($30FF): the high byte comes from 0x3000, not 0x3100.
    let (mut cpu, mut mem) = setup(&[0x6C, 0xFF, 0x30], 0x0200);
    mem.write(0x30FF, 0x34);
    mem.write(0x3000, 0x12);
    mem.write(0x3100, 0x56);
    let cy = cpu.step(&mut mem);
    assert_eq!(cy, 5);
    assert_eq!(cpu.registers.pc, 0x1234);
}

#[test]
fn brk_pushes_three_bytes_and_rti_reverses() {
    let (mut cpu, mut mem) = setup(&[0x00], 0x0212);
    cpu.registers.set_flag(StatusFlag::Carry, true);
    mem.write(0xFFFE, 0x00);
    mem.write(0xFFFF, 0x80);
    mem.write(0x8000, 0x40);  // RTI
    let cy = cpu.step(&mut mem);
    assert_eq!(cy, 7);
    // PCH, PCL, flags, pushed in that order; the return address is the
    // BRK's address plus two, and the pushed flags carry bits 4 and 5.
    assert_eq!(mem.read(0x01FD), 0x02);
    assert_eq!(mem.read(0x01FC), 0x14);
    assert_eq!(mem.read(0x01FB), 0x31);
    assert_eq!(cpu.registers.sp, 0xFA);
    assert_eq!(cpu.registers.pc, 0x8000);
    assert!(cpu.registers.get_flag(StatusFlag::InterruptDisable));
    let cy = cpu.step(&mut mem);
    assert_eq!(cy, 6);
    assert_eq!(cpu.registers.pc, 0x0214);
    assert_eq!(cpu.registers.sp, 0xFD);
    assert!(cpu.registers.get_flag(StatusFlag::Carry));
    assert!(!cpu.registers.get_flag(StatusFlag::InterruptDisable));
}

#[test]
fn reset_is_idempotent() {
    let mut mem = Mem::new();
    mem.write(0xFFFC, 0x34);
    mem.write(0xFFFD, 0x12);
    let mut cpu = CPU::new();
    cpu.registers.a = 0x55;
    cpu.registers.set_flag(StatusFlag::Carry, true);
    cpu.reset(&mem);
    let first = cpu.registers;
    cpu.reset(&mem);
    assert_eq!(cpu.registers, first);
    assert_eq!(cpu.registers.pc, 0x1234);
    assert_eq!(cpu.registers.sp, 0xFD);
    assert_eq!(cpu.registers.status_byte(), 0x24);
}

#[test]
fn absolute_x_page_cross_penalty_for_reads() {
    // LDA $12F0,X with X = 0x20 crosses into 0x1310: 5 cycles.
    let (mut cpu, mut mem) = setup(&[0xBD, 0xF0, 0x12], 0x0200);
    cpu.registers.x = 0x20;
    mem.write(0x1310, 0x07);
    let cy = cpu.step(&mut mem);
    assert_eq!(cy, 5);
    assert_eq!(cpu.registers.a, 0x07);
    // Without a crossing: 4 cycles.
    let (mut cpu, mut mem) = setup(&[0xBD, 0xF0, 0x12], 0x0200);
    cpu.registers.x = 0x01;
    mem.write(0x12F1, 0x08);
    let cy = cpu.step(&mut mem);
    assert_eq!(cy, 4);
    assert_eq!(cpu.registers.a, 0x08);
}

#[test]
fn absolute_x_store_pays_penalty_unconditionally() {
    let (mut cpu, mut mem) = setup(&[0x9D, 0xF0, 0x12], 0x0200);
    cpu.registers.a = 0xAB;
    cpu.registers.x = 0x01;  // no page crossing
    let cy = cpu.step(&mut mem);
    assert_eq!(cy, 5);
    assert_eq!(mem.read(0x12F1), 0xAB);
}

#[test]
fn branch_cycle_accounting() {
    // BEQ not taken: 2 cycles.
    let (mut cpu, mut mem) = setup(&[0xF0, 0x10], 0x0200);
    let cy = cpu.step(&mut mem);
    assert_eq!(cy, 2);
    assert_eq!(cpu.registers.pc, 0x0202);
    // Taken, same page: 3 cycles.
    let (mut cpu, mut mem) = setup(&[0xF0, 0x10], 0x0200);
    cpu.registers.status.zero = true;
    let cy = cpu.step(&mut mem);
    assert_eq!(cy, 3);
    assert_eq!(cpu.registers.pc, 0x0212);
    // Taken, crossing a page: 4 cycles.
    let (mut cpu, mut mem) = setup(&[0xF0, 0x20], 0x02F0);
    cpu.registers.status.zero = true;
    let cy = cpu.step(&mut mem);
    assert_eq!(cy, 4);
    assert_eq!(cpu.registers.pc, 0x0312);
    // Backward branch: BNE -2 loops onto itself.
    let (mut cpu, mut mem) = setup(&[0xD0, 0xFE], 0x0200);
    let cy = cpu.step(&mut mem);
    assert_eq!(cy, 3);
    assert_eq!(cpu.registers.pc, 0x0200);
}

#[test]
fn jsr_rts_round_trip() {
    let (mut cpu, mut mem) = setup(&[0x20, 0x00, 0x03], 0x0200);
    mem.write(0x0300, 0x60);  // RTS
    let cy = cpu.step(&mut mem);
    assert_eq!(cy, 6);
    assert_eq!(cpu.registers.pc, 0x0300);
    // The address of the JSR's last byte was pushed, high byte first.
    assert_eq!(mem.read(0x01FD), 0x02);
    assert_eq!(mem.read(0x01FC), 0x02);
    assert_eq!(cpu.registers.sp, 0xFB);
    let cy = cpu.step(&mut mem);
    assert_eq!(cy, 6);
    assert_eq!(cpu.registers.pc, 0x0203);
    assert_eq!(cpu.registers.sp, 0xFD);
}

#[test]
fn stack_wraps_silently_within_page_one() {
    let (mut cpu, mut mem) = setup(&[0x48, 0x48], 0x0200);  // PHA PHA
    cpu.registers.sp = 0x00;
    cpu.registers.a = 0x77;
    let cy = cpu.step(&mut mem);
    assert_eq!(cy, 3);
    assert_eq!(mem.read(0x0100), 0x77);
    assert_eq!(cpu.registers.sp, 0xFF);
    cpu.step(&mut mem);
    assert_eq!(mem.read(0x01FF), 0x77);
    assert_eq!(cpu.registers.sp, 0xFE);
}

#[test]
fn php_sets_bits_4_and_5_plp_ignores_them() {
    let (mut cpu, mut mem) = setup(&[0x08, 0x28], 0x0200);  // PHP PLP
    cpu.registers.status.carry = true;
    cpu.step(&mut mem);
    assert_eq!(mem.read(0x01FD), 0x31);
    cpu.step(&mut mem);
    assert!(cpu.registers.status.carry);
    // The stored break bit is still clear: bits 4 and 5 carry no state.
    assert!(!cpu.registers.get_flag(StatusFlag::BrkCommand));
}

#[test]
fn nmi_is_latched_and_serviced_with_break_clear() {
    let (mut cpu, mut mem) = setup(&[0xEA], 0x0300);
    mem.write(0xFFFA, 0x00);
    mem.write(0xFFFB, 0x90);
    cpu.assert_nmi();
    let cy = cpu.step(&mut mem);
    assert_eq!(cy, 7);
    assert_eq!(cpu.registers.pc, 0x9000);
    assert_eq!(cpu.registers.sp, 0xFA);
    // The pushed flags byte has bit 4 clear and bit 5 set.
    assert_eq!(mem.read(0x01FB), 0x20);
    assert!(!cpu.nmi_pending);
    assert!(cpu.registers.get_flag(StatusFlag::InterruptDisable));
}

#[test]
fn irq_respects_interrupt_disable() {
    let (mut cpu, mut mem) = setup(&[0xEA, 0xEA], 0x0300);
    mem.write(0xFFFE, 0x00);
    mem.write(0xFFFF, 0xA0);
    cpu.registers.status.interrupt_disable = true;
    cpu.assert_irq();
    let cy = cpu.step(&mut mem);
    // Masked: the NOP runs and the line stays latched.
    assert_eq!(cy, 2);
    assert_eq!(cpu.registers.pc, 0x0301);
    assert!(cpu.irq_pending);
    cpu.registers.status.interrupt_disable = false;
    let cy = cpu.step(&mut mem);
    assert_eq!(cy, 7);
    assert_eq!(cpu.registers.pc, 0xA000);
    assert!(!cpu.irq_pending);
}

#[test]
fn read_modify_write_on_memory() {
    // ASL $10 with 0xC1 stored: result 0x82, carry out set.
    let (mut cpu, mut mem) = setup(&[0x06, 0x10], 0x0200);
    mem.write(0x0010, 0xC1);
    let cy = cpu.step(&mut mem);
    assert_eq!(cy, 5);
    assert_eq!(mem.read(0x0010), 0x82);
    assert!(cpu.registers.status.carry);
    assert!(cpu.registers.status.negative);
}

#[test]
fn rotate_accumulator_through_carry() {
    let (mut cpu, mut mem) = setup(&[0x6A], 0x0200);  // ROR A
    cpu.registers.a = 0x01;
    cpu.registers.status.carry = true;
    let cy = cpu.step(&mut mem);
    assert_eq!(cy, 2);
    assert_eq!(cpu.registers.a, 0x80);
    assert!(cpu.registers.status.carry);
    assert!(cpu.registers.status.negative);
}

#[test]
fn decimal_mode_adc_in_program() {
    // SED; LDA #$09; ADC #$01 with carry clear gives BCD 0x10.
    let (mut cpu, mut mem) = setup(&[0xF8, 0xA9, 0x09, 0x69, 0x01], 0x0200);
    cpu.step(&mut mem);
    cpu.step(&mut mem);
    let cy = cpu.step(&mut mem);
    assert_eq!(cy, 2);
    assert_eq!(cpu.registers.a, 0x10);
}

#[test]
fn transfer_to_stack_pointer_sets_no_flags() {
    let (mut cpu, mut mem) = setup(&[0x9A, 0xAA], 0x0200);  // TXS TAX
    cpu.registers.x = 0x00;
    cpu.step(&mut mem);
    assert_eq!(cpu.registers.sp, 0x00);
    assert!(!cpu.registers.get_flag(StatusFlag::Zero));
    cpu.registers.a = 0x00;
    cpu.step(&mut mem);
    assert_eq!(cpu.registers.x, 0x00);
    assert!(cpu.registers.get_flag(StatusFlag::Zero));
}

#[test]
fn undocumented_dcp_under_both_policies() {
    // DCP $10: under the faithful policy memory is decremented and A
    // compared against the result; as a NOP it only consumes its bytes.
    let (mut cpu, mut mem) = setup(&[0xC7, 0x10], 0x0200);
    cpu.registers.a = 0x04;
    mem.write(0x0010, 0x05);
    assert_eq!(cpu.policy, IllegalPolicy::NopBytes);
    let cy = cpu.step(&mut mem);
    assert_eq!(cy, 5);
    assert_eq!(cpu.registers.pc, 0x0202);
    assert_eq!(mem.read(0x0010), 0x05);
    assert!(!cpu.registers.status.zero);

    let mut cpu = CPU::with_policy(IllegalPolicy::Faithful);
    cpu.registers.pc = 0x0200;
    cpu.registers.a = 0x04;
    mem.write(0x0010, 0x05);
    let cy = cpu.step(&mut mem);
    assert_eq!(cy, 5);
    assert_eq!(cpu.registers.pc, 0x0202);
    assert_eq!(mem.read(0x0010), 0x04);
    assert!(cpu.registers.status.zero);
    assert!(cpu.registers.status.carry);
}

#[test]
fn undocumented_lax_loads_a_and_x() {
    let (mut cpu, mut mem) = setup(&[0xA7, 0x10], 0x0200);
    cpu.policy = IllegalPolicy::Faithful;
    mem.write(0x0010, 0x8E);
    let cy = cpu.step(&mut mem);
    assert_eq!(cy, 3);
    assert_eq!(cpu.registers.a, 0x8E);
    assert_eq!(cpu.registers.x, 0x8E);
    assert!(cpu.registers.status.negative);
}

#[test]
fn halt_opcode_under_both_policies() {
    let (mut cpu, mut mem) = setup(&[0x02], 0x0200);
    cpu.policy = IllegalPolicy::Faithful;
    let cy = cpu.step(&mut mem);
    assert_eq!(cy, 2);
    // The faithful policy models the halt: the PC stays on the opcode.
    assert_eq!(cpu.registers.pc, 0x0200);
    let mut cpu = CPU::new();
    cpu.registers.pc = 0x0200;
    let cy = cpu.step(&mut mem);
    assert_eq!(cy, 2);
    assert_eq!(cpu.registers.pc, 0x0201);
}

#[test]
fn indirect_indexed_page_cross() {
    // LDA ($10),Y with base 0x12F0 and Y = 0x20: crossing costs 6 cycles.
    let (mut cpu, mut mem) = setup(&[0xB1, 0x10], 0x0200);
    cpu.registers.y = 0x20;
    mem.write(0x0010, 0xF0);
    mem.write(0x0011, 0x12);
    mem.write(0x1310, 0x3C);
    let cy = cpu.step(&mut mem);
    assert_eq!(cy, 6);
    assert_eq!(cpu.registers.a, 0x3C);
}

#[test]
fn bit_copies_operand_bits_to_n_and_v() {
    let (mut cpu, mut mem) = setup(&[0x24, 0x10], 0x0200);
    cpu.registers.a = 0x01;
    mem.write(0x0010, 0xC0);
    let cy = cpu.step(&mut mem);
    assert_eq!(cy, 3);
    assert!(cpu.registers.status.zero);
    assert!(cpu.registers.status.negative);
    assert!(cpu.registers.status.overflow);
}

#[test]
fn logic_ops_on_accumulator() {
    let (mut cpu, mut mem) = setup(&[0x29, 0x0F, 0x09, 0xF0, 0x49, 0xFF], 0x0200);
    cpu.registers.a = 0x5A;
    cpu.step(&mut mem);  // AND #$0F
    assert_eq!(cpu.registers.a, 0x0A);
    cpu.step(&mut mem);  // ORA #$F0
    assert_eq!(cpu.registers.a, 0xFA);
    assert!(cpu.registers.status.negative);
    cpu.step(&mut mem);  // EOR #$FF
    assert_eq!(cpu.registers.a, 0x05);
    assert!(!cpu.registers.status.negative);
}

#[test]
fn inc_and_dec_wrap_at_byte_boundaries() {
    let (mut cpu, mut mem) = setup(&[0xE6, 0x10, 0xC6, 0x11, 0xE8, 0x88], 0x0200);
    mem.write(0x0010, 0xFF);
    mem.write(0x0011, 0x00);
    cpu.registers.x = 0xFF;
    cpu.registers.y = 0x00;
    cpu.step(&mut mem);  // INC $10
    assert_eq!(mem.read(0x0010), 0x00);
    assert!(cpu.registers.status.zero);
    cpu.step(&mut mem);  // DEC $11
    assert_eq!(mem.read(0x0011), 0xFF);
    assert!(cpu.registers.status.negative);
    cpu.step(&mut mem);  // INX
    assert_eq!(cpu.registers.x, 0x00);
    assert!(cpu.registers.status.zero);
    cpu.step(&mut mem);  // DEY
    assert_eq!(cpu.registers.y, 0xFF);
    assert!(cpu.registers.status.negative);
}

#[test]
fn cpx_sets_carry_when_not_below() {
    let (mut cpu, mut mem) = setup(&[0xE0, 0x10], 0x0200);
    cpu.registers.x = 0x10;
    let cy = cpu.step(&mut mem);
    assert_eq!(cy, 2);
    assert!(cpu.registers.status.carry);
    assert!(cpu.registers.status.zero);
    assert!(!cpu.registers.status.negative);
}

#[test]
fn sta_and_ldy_round_trip_through_memory() {
    let (mut cpu, mut mem) = setup(&[0x85, 0x40, 0xA4, 0x40], 0x0200);
    cpu.registers.a = 0x7E;
    let cy = cpu.step(&mut mem);  // STA $40
    assert_eq!(cy, 3);
    assert_eq!(mem.read(0x0040), 0x7E);
    let cy = cpu.step(&mut mem);  // LDY $40
    assert_eq!(cy, 3);
    assert_eq!(cpu.registers.y, 0x7E);
}

#[test]
fn documented_set_is_inspectable() {
    assert!(mos6502::opcodes::is_documented(0xA9));
    assert!(mos6502::opcodes::is_documented(0x00));
    assert!(!mos6502::opcodes::is_documented(0xC7));
    assert!(!mos6502::opcodes::is_documented(0x02));
    let documented = (0u16..256).filter(|&c| mos6502::opcodes::is_documented(c as u8)).count();
    assert_eq!(documented, 151);
}
