use mos6502::cpu::StatusFlags;

#[test]
fn nz_rule_holds_for_all_result_bytes() {
    // After any "sets NZ" operation, Zero tracks result == 0 and Negative
    // tracks bit 7, for all 256 possible result bytes.
    let mut p = StatusFlags::new();
    for v in 0..=255u8 {
        p.set_nz_flags(v);
        assert_eq!(p.z(), v == 0);
        assert_eq!(p.n(), v & 0x80 != 0);
    }
}

#[test]
fn nz_rule_touches_no_other_flag() {
    let mut p = StatusFlags::new();
    p.set_c(true);
    p.set_d(true);
    p.set_v(true);
    p.set_nz_flags(0x80);
    assert!(p.c());
    assert!(p.d());
    assert!(p.v());
    assert!(p.n());
    assert!(!p.z());
}

#[test]
fn reserved_and_break_read_as_set() {
    let p = StatusFlags::new();
    assert!(p.reserved());
    assert!(p.b());
    // The freshly powered status byte carries only the reserved bit.
    assert_eq!(p.value(), 0x20);
}

#[test]
fn value_round_trip_forces_break_and_reserved() {
    let mut p = StatusFlags::new();
    p.set_value(0x83);
    assert!(p.n());
    assert!(!p.v());
    assert!(!p.d());
    assert!(!p.i());
    assert!(p.z());
    assert!(p.c());
    // Reading the byte back shows bits 4 and 5 set on top of what went in.
    assert_eq!(p.value(), 0x83 | 0x30);
}

#[test]
fn packed_byte_layout() {
    let mut p = StatusFlags::new();
    p.set_n(true);
    assert_eq!(p.value(), 0xa0);
    p.set_c(true);
    assert_eq!(p.value(), 0xa1);
    p.set_z(true);
    assert_eq!(p.value(), 0xa3);
    p.set_i(true);
    assert_eq!(p.value(), 0xa7);
    p.set_d(true);
    assert_eq!(p.value(), 0xaf);
    p.set_b(true);
    assert_eq!(p.value(), 0xbf);
    p.set_v(true);
    assert_eq!(p.value(), 0xff);
}
