use mos6502::cpu::{Cpu, NullListener};
use mos6502::memory::Memory;

fn fresh_cpu() -> Cpu<NullListener> {
    Cpu::new(Memory::new_with_vec(Vec::new()), None)
}

#[test]
fn binary_adc_signed_overflow() {
    // A=0x7F plus 0x01 with carry-in crosses the signed boundary.
    let mut cpu = fresh_cpu();
    cpu.a = 0x7f;
    cpu.p.set_c(true);
    cpu.adc(0x01);
    assert_eq!(cpu.a, 0x81);
    assert!(!cpu.p.c());
    assert!(cpu.p.v());
    assert!(cpu.p.n());
    assert!(!cpu.p.z());
}

#[test]
fn binary_adc_carry_out() {
    let mut cpu = fresh_cpu();
    cpu.a = 0xff;
    cpu.adc(0x01);
    assert_eq!(cpu.a, 0x00);
    assert!(cpu.p.c());
    assert!(cpu.p.z());
    assert!(!cpu.p.n());
    assert!(!cpu.p.v());
}

#[test]
fn decimal_adc_nine_plus_carry() {
    // BCD "9" plus carry-in gives BCD "10" with no carry out.
    let mut cpu = fresh_cpu();
    cpu.a = 0x09;
    cpu.p.set_d(true);
    cpu.p.set_c(true);
    cpu.adc(0x00);
    assert_eq!(cpu.a, 0x10);
    assert!(!cpu.p.c());
    assert!(!cpu.p.v());
}

#[test]
fn decimal_adc_with_carry_out() {
    // BCD 58 + 46 + 1 = 105: result digit pair 05 with carry set.
    let mut cpu = fresh_cpu();
    cpu.a = 0x58;
    cpu.p.set_d(true);
    cpu.p.set_c(true);
    cpu.adc(0x46);
    assert_eq!(cpu.a, 0x05);
    assert!(cpu.p.c());
}

#[test]
fn decimal_sbc_borrowing_nibble() {
    // BCD 10 - 1 with no borrow-in gives BCD 9, carry (no borrow) set.
    let mut cpu = fresh_cpu();
    cpu.a = 0x10;
    cpu.p.set_d(true);
    cpu.p.set_c(true);
    cpu.sbc(0x01);
    assert_eq!(cpu.a, 0x09);
    assert!(cpu.p.c());
}

#[test]
fn binary_sbc_is_add_of_complement() {
    let mut cpu = fresh_cpu();
    cpu.a = 0x50;
    cpu.p.set_c(true);
    cpu.sbc(0x10);
    assert_eq!(cpu.a, 0x40);
    assert!(cpu.p.c());
}

#[test]
fn compare_lower_register() {
    // compare(0x10, 0x20): carry clear, not zero, difference 0xF0 is negative.
    let mut cpu = fresh_cpu();
    cpu.cmp(0x10, 0x20);
    assert!(!cpu.p.c());
    assert!(!cpu.p.z());
    assert!(cpu.p.n());
}

#[test]
fn compare_equal_and_greater() {
    let mut cpu = fresh_cpu();
    cpu.cmp(0x20, 0x20);
    assert!(cpu.p.c());
    assert!(cpu.p.z());
    assert!(!cpu.p.n());
    cpu.cmp(0x30, 0x20);
    assert!(cpu.p.c());
    assert!(!cpu.p.z());
}

#[test]
fn shift_left_carries_bit_seven() {
    let mut cpu = fresh_cpu();
    let r = cpu.asl(0x81);
    assert_eq!(r, 0x02);
    assert!(cpu.p.c());
    assert!(!cpu.p.n());
    assert!(!cpu.p.z());
}

#[test]
fn shift_right_carries_bit_zero() {
    let mut cpu = fresh_cpu();
    let r = cpu.lsr(0x01);
    assert_eq!(r, 0x00);
    assert!(cpu.p.c());
    assert!(cpu.p.z());
    assert!(!cpu.p.n());
}

#[test]
fn rotate_left_through_carry() {
    let mut cpu = fresh_cpu();
    cpu.p.set_c(true);
    let r = cpu.rol(0x80);
    assert_eq!(r, 0x01);
    assert!(cpu.p.c());
}

#[test]
fn rotate_right_through_carry() {
    let mut cpu = fresh_cpu();
    cpu.p.set_c(true);
    let r = cpu.ror(0x01);
    assert_eq!(r, 0x80);
    assert!(cpu.p.c());
    assert!(cpu.p.n());
}
