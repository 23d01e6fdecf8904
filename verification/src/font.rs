use vstd::prelude::*;

verus! {

/// Where the glyphs stand in memory.
pub const FONT_START: u16 = 0x050;

/// The bytes of one glyph.
pub const GLYPH_SIZE: usize = 5;

/// The built-in sprites for the hexadecimal digits 0 to F, five rows each,
/// one after another.
pub const FONT: [u8; 80] = [
    0xF0, 0x90, 0x90, 0x90, 0xF0,
    0x20, 0x60, 0x20, 0x20, 0x70,
    0xF0, 0x10, 0xF0, 0x80, 0xF0,
    0xF0, 0x10, 0xF0, 0x10, 0xF0,
    0x90, 0x90, 0xF0, 0x10, 0x10,
    0xF0, 0x80, 0xF0, 0x10, 0xF0,
    0xF0, 0x80, 0xF0, 0x90, 0xF0,
    0xF0, 0x10, 0x20, 0x40, 0x40,
    0xF0, 0x90, 0xF0, 0x90, 0xF0,
    0xF0, 0x90, 0xF0, 0x10, 0xF0,
    0xF0, 0x90, 0xF0, 0x90, 0x90,
    0xE0, 0x90, 0xE0, 0x90, 0xE0,
    0xF0, 0x80, 0x80, 0x80, 0xF0,
    0xE0, 0x90, 0x90, 0x90, 0xE0,
    0xF0, 0x80, 0xF0, 0x80, 0xF0,
    0xF0, 0x80, 0xF0, 0x80, 0x80,
];

/// The address of the glyph for the low nibble of `value`.
pub open spec fn glyph_address(value: u8) -> u16 {
    (FONT_START + GLYPH_SIZE * (value % 16)) as u16
}

} // verus!
