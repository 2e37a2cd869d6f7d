use mos6502::memory::Memory;

#[test]
fn stack_wraparound_on_push() {
    // With the stack pointer at 0x00, a push writes stack-page offset 0x00
    // and the pointer wraps to 0xFF instead of faulting; the next pop
    // increments back to 0x00 and re-reads that same byte.
    let mut m = Memory::new_with_vec(Vec::new());
    m.set_sp(0x00);
    m.push_byte(0xab);
    assert_eq!(m.sp_value(), 0xff);
    assert_eq!(m.get(0x100), 0xab);
    assert_eq!(m.pop_byte(), 0xab);
    assert_eq!(m.sp_value(), 0x00);
}

#[test]
fn push_pop_round_trip_anywhere() {
    let mut m = Memory::new_with_vec(Vec::new());
    for sp in [0x00u8, 0x01, 0x7f, 0xfe, 0xff] {
        m.set_sp(sp);
        m.push_byte(sp ^ 0x5a);
        assert_eq!(m.pop_byte(), sp ^ 0x5a);
        assert_eq!(m.sp_value(), sp);
    }
}

#[test]
fn word_is_pushed_high_byte_first() {
    let mut m = Memory::new_with_vec(Vec::new());
    // Stack pointer starts at 0xFF.
    m.push_word(0x1234);
    assert_eq!(m.get(0x1ff), 0x12);
    assert_eq!(m.get(0x1fe), 0x34);
    assert_eq!(m.sp_value(), 0xfd);
    assert_eq!(m.pop_word(), 0x1234);
    assert_eq!(m.sp_value(), 0xff);
}

#[test]
fn word_round_trip_across_the_page_edge() {
    let mut m = Memory::new_with_vec(Vec::new());
    m.set_sp(0x00);
    m.push_word(0xbeef);
    assert_eq!(m.get(0x100), 0xbe);
    assert_eq!(m.get(0x1ff), 0xef);
    assert_eq!(m.pop_word(), 0xbeef);
    assert_eq!(m.sp_value(), 0x00);
}

#[test]
fn storage_padding_reads_zero() {
    let m = Memory::new_with_vec(vec![0x01, 0x02]);
    assert_eq!(m.get(0), 0x01);
    assert_eq!(m.get(1), 0x02);
    assert_eq!(m.get(2), 0x00);
    assert_eq!(m.get(0x1234), 0x00);
    assert_eq!(m.get(0xffff), 0x00);
}

#[test]
fn word_reads_little_endian() {
    let mut m = Memory::new_with_vec(vec![0x34, 0x12]);
    assert_eq!(m.word(0), 0x1234);
    m.set(0xffff, 0x55);
    m.set(0x0000, 0x66);
    // The high byte's address wraps around the top of the address space.
    assert_eq!(m.word(0xffff), 0x6655);
}
