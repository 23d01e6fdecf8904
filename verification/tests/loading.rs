use chip8::{Chip8, Error};

const FONT: [u8; 80] = [
    0xF0, 0x90, 0x90, 0x90, 0xF0, 0x20, 0x60, 0x20, 0x20, 0x70, 0xF0, 0x10, 0xF0, 0x80, 0xF0, 0xF0,
    0x10, 0xF0, 0x10, 0xF0, 0x90, 0x90, 0xF0, 0x10, 0x10, 0xF0, 0x80, 0xF0, 0x10, 0xF0, 0xF0, 0x80,
    0xF0, 0x90, 0xF0, 0xF0, 0x10, 0x20, 0x40, 0x40, 0xF0, 0x90, 0xF0, 0x90, 0xF0, 0xF0, 0x90, 0xF0,
    0x10, 0xF0, 0xF0, 0x90, 0xF0, 0x90, 0x90, 0xE0, 0x90, 0xE0, 0x90, 0xE0, 0xF0, 0x80, 0x80, 0x80,
    0xF0, 0xE0, 0x90, 0x90, 0x90, 0xE0, 0xF0, 0x80, 0xF0, 0x80, 0xF0, 0xF0, 0x80, 0xF0, 0x80, 0x80,
];

#[test]
fn a_loaded_machine_starts_at_0x200_with_everything_zero() {
    let chip8 = Chip8::load(&[0x12, 0x00]).unwrap();
    assert_eq!(chip8.program_counter(), 0x200);
    assert_eq!(chip8.index_register(), 0);
    assert_eq!(chip8.registers(), &[0u8; 16]);
    assert_eq!(chip8.stack(), Vec::<u16>::new());
    assert_eq!(chip8.delay_timer(), 0);
    assert_eq!(chip8.sound_timer(), 0);
    assert!(!chip8.sound_on());
    assert!(chip8.display().iter().all(|pixel| !pixel));
    assert!(chip8.keypad().iter().all(|key| !key));
    assert_eq!(chip8.awaiting_key(), None);
    assert!(!chip8.needs_redraw());
}

#[test]
fn the_program_stands_at_0x200_and_the_font_at_0x050() {
    let rom = [0xA2, 0x2A, 0x60, 0x0C, 0xFF];
    let chip8 = Chip8::load(&rom).unwrap();
    let memory = chip8.memory();
    assert_eq!(&memory[0x200..0x205], &rom);
    assert_eq!(&memory[0x050..0x0A0], &FONT);
    for (address, byte) in memory.iter().enumerate() {
        let font = (0x050..0x0A0).contains(&address);
        let program = (0x200..0x205).contains(&address);
        if !font && !program {
            assert_eq!(*byte, 0, "address {address:#05x}");
        }
    }
}

#[test]
fn an_empty_program_loads() {
    let chip8 = Chip8::load(&[]).unwrap();
    assert!(chip8.memory()[0x200..].iter().all(|byte| *byte == 0));
}

#[test]
fn the_largest_program_fills_memory_to_its_end() {
    let rom = vec![0xAB; 4096 - 0x200];
    let chip8 = Chip8::load(&rom).unwrap();
    assert_eq!(chip8.memory()[0x200], 0xAB);
    assert_eq!(chip8.memory()[4095], 0xAB);
    assert_eq!(chip8.memory()[0x1FF], 0);
}

#[test]
fn a_program_one_byte_too_long_is_refused() {
    let rom = vec![0u8; 4096 - 0x200 + 1];
    assert_eq!(Chip8::load(&rom).err(), Some(Error::RomTooLarge));
    let rom = vec![0u8; 10_000];
    assert_eq!(Chip8::load(&rom).err(), Some(Error::RomTooLarge));
}

#[test]
fn a_clone_is_a_second_machine_in_the_same_state() {
    let mut chip8 = Chip8::load(&[0x60, 0x2A, 0x12, 0x02]).unwrap();
    let before = chip8.clone();
    assert_eq!(chip8, before);
    chip8.step().unwrap();
    assert_ne!(chip8, before);
    assert_eq!(before.registers()[0], 0);
    assert_eq!(chip8.registers()[0], 0x2A);
}
