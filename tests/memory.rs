use chip8::cpu::{Address, Memory};

#[test]
fn memory_starts_zeroed() {
    let m = Memory::new();
    assert_eq!(m.read8(Address::new(0)), 0);
    assert_eq!(m.read8(Address::new(0xFFF)), 0);
}

#[test]
fn memory_write_then_read() {
    let mut m = Memory::new();
    m.write(Address::new(0x300), &[1, 2, 3, 4]);
    assert_eq!(m.read(Address::new(0x300), 4), &[1, 2, 3, 4]);
    assert_eq!(m.read(Address::new(0x2FF), 2), &[0, 1]);
    assert_eq!(m.read(Address::new(0x301), 0), &[] as &[u8]);
    m.write(Address::new(0xFFC), &[9, 9, 9, 9]);
    assert_eq!(m.read8(Address::new(0xFFF)), 9);
}

#[test]
fn memory_words_are_big_endian() {
    let mut m = Memory::new();
    m.write16(Address::new(0x10), 0xABCD);
    assert_eq!(m.read8(Address::new(0x10)), 0xAB);
    assert_eq!(m.read8(Address::new(0x11)), 0xCD);
    assert_eq!(m.read16(Address::new(0x10)), 0xABCD);
    m.write8(Address::new(0x11), 0x01);
    assert_eq!(m.read16(Address::new(0x10)), 0xAB01);
}
