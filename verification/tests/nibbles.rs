use chip8::n_nibbles;

#[test]
fn n_nibbles_12bits_no_offset_test() {
    let v = 0x00E0;

    assert_eq!(0x0E0, n_nibbles(v, 3, 0));
}

#[test]
fn n_nibbles_4bits_no_offset_test() {
    let v = 0xAEFA;
    assert_eq!(0xA, n_nibbles(v, 1, 0));
}

#[test]
fn n_nibbles_keeps_the_field_where_it_stands() {
    assert_eq!(n_nibbles(0xABCD, 1, 4), 0x00C0);
    assert_eq!(n_nibbles(0xABCD, 1, 8), 0x0B00);
    assert_eq!(n_nibbles(0xABCD, 1, 12), 0xA000);
    assert_eq!(n_nibbles(0xABCD, 2, 4), 0x0BC0);
    assert_eq!(n_nibbles(0xABCD, 2, 0), 0x00CD);
    assert_eq!(n_nibbles(0xABCD, 4, 0), 0xABCD);
}

#[test]
fn n_nibbles_takes_offsets_in_bits() {
    // one nibble from bit 2 on: bits 2 to 5
    assert_eq!(n_nibbles(0xFFFF, 1, 2), 0x003C);
    assert_eq!(n_nibbles(0x00E0, 1, 2), 0x0020);
    assert_eq!(n_nibbles(0xFFFF, 1, 15), 0x8000);
}

#[test]
fn n_nibbles_drops_what_does_not_fit_the_word() {
    assert_eq!(n_nibbles(0xFFFF, 4, 4), 0xFFF0);
    assert_eq!(n_nibbles(0xFFFF, 2, 12), 0xF000);
    assert_eq!(n_nibbles(0x1234, 3, 8), 0x1200);
}
