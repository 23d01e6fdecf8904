use chip8::{Chip8, Error, Op};

fn machine() -> Chip8 {
    Chip8::load(&[]).unwrap()
}

fn with_registers(values: &[(usize, u8)]) -> Chip8 {
    let mut chip8 = machine();
    for (x, value) in values {
        Op::SetImmediate(*x, *value).execute(&mut chip8).unwrap();
    }
    chip8
}

/// Writes `bytes` to memory from `address` on, through the machine's own
/// instructions, and leaves I at `address`.
fn poke(chip8: &mut Chip8, address: u16, bytes: &[u8]) {
    let saved = *chip8.registers();
    for (i, byte) in bytes.iter().enumerate() {
        Op::SetIndex(address + i as u16).execute(chip8).unwrap();
        Op::SetImmediate(0, *byte).execute(chip8).unwrap();
        Op::Store(0).execute(chip8).unwrap();
    }
    for (x, value) in saved.iter().enumerate() {
        Op::SetImmediate(x, *value).execute(chip8).unwrap();
    }
    Op::SetIndex(address).execute(chip8).unwrap();
}

fn lit(chip8: &Chip8) -> Vec<(usize, usize)> {
    let mut cells = Vec::new();
    for (cell, pixel) in chip8.display().iter().enumerate() {
        if *pixel {
            cells.push((cell % 64, cell / 64));
        }
    }
    cells
}

#[test]
fn set_then_read_yields_the_value() {
    for x in 0..16 {
        for nn in [0u8, 1, 0x7F, 0x80, 0xFF] {
            let mut chip8 = machine();
            assert_eq!(Op::SetImmediate(x, nn).execute(&mut chip8), Ok(()));
            for r in 0..16 {
                assert_eq!(chip8.registers()[r], if r == x { nn } else { 0 });
            }
        }
    }
}

#[test]
fn add_wraps_modulo_256_without_a_flag() {
    let mut chip8 = with_registers(&[(3, 0xFF)]);
    assert_eq!(Op::Add(3, 0x02).execute(&mut chip8), Ok(()));
    assert_eq!(chip8.registers()[3], 0x01);
    assert_eq!(chip8.registers()[0xF], 0);

    let mut chip8 = with_registers(&[(3, 0xFF), (0xF, 0x55)]);
    Op::Add(3, 0x02).execute(&mut chip8).unwrap();
    assert_eq!(chip8.registers()[3], 0x01);
    assert_eq!(chip8.registers()[0xF], 0x55);

    let mut chip8 = with_registers(&[(3, 10)]);
    Op::Add(3, 20).execute(&mut chip8).unwrap();
    assert_eq!(chip8.registers()[3], 30);
}

#[test]
fn add_register_sets_the_carry() {
    let mut chip8 = with_registers(&[(1, 10), (2, 20), (0xF, 7)]);
    assert_eq!(Op::AddRegister(1, 2).execute(&mut chip8), Ok(()));
    assert_eq!(chip8.registers()[1], 30);
    assert_eq!(chip8.registers()[2], 20);
    assert_eq!(chip8.registers()[0xF], 0);

    let mut chip8 = with_registers(&[(1, 200), (2, 100)]);
    Op::AddRegister(1, 2).execute(&mut chip8).unwrap();
    assert_eq!(chip8.registers()[1], 44);
    assert_eq!(chip8.registers()[0xF], 1);

    let mut chip8 = with_registers(&[(1, 0xFF), (2, 0x00)]);
    Op::AddRegister(1, 2).execute(&mut chip8).unwrap();
    assert_eq!(chip8.registers()[1], 0xFF);
    assert_eq!(chip8.registers()[0xF], 0);

    let mut chip8 = with_registers(&[(1, 0xFF), (2, 0x01)]);
    Op::AddRegister(1, 2).execute(&mut chip8).unwrap();
    assert_eq!(chip8.registers()[1], 0x00);
    assert_eq!(chip8.registers()[0xF], 1);
}

#[test]
fn the_flag_wins_where_the_target_is_vf() {
    let mut chip8 = with_registers(&[(0xF, 200), (2, 100)]);
    Op::AddRegister(0xF, 2).execute(&mut chip8).unwrap();
    assert_eq!(chip8.registers()[0xF], 1);

    let mut chip8 = with_registers(&[(0xF, 3), (2, 4)]);
    Op::AddRegister(0xF, 2).execute(&mut chip8).unwrap();
    assert_eq!(chip8.registers()[0xF], 0);

    let mut chip8 = with_registers(&[(1, 200), (0xF, 100)]);
    Op::AddRegister(1, 0xF).execute(&mut chip8).unwrap();
    assert_eq!(chip8.registers()[1], 44);
    assert_eq!(chip8.registers()[0xF], 1);
}

#[test]
fn subtractions_set_the_flag_where_nothing_is_borrowed() {
    let mut chip8 = with_registers(&[(1, 50), (2, 20)]);
    Op::SubtractYFromX(1, 2).execute(&mut chip8).unwrap();
    assert_eq!(chip8.registers()[1], 30);
    assert_eq!(chip8.registers()[0xF], 1);

    let mut chip8 = with_registers(&[(1, 20), (2, 50)]);
    Op::SubtractYFromX(1, 2).execute(&mut chip8).unwrap();
    assert_eq!(chip8.registers()[1], 226);
    assert_eq!(chip8.registers()[0xF], 0);

    let mut chip8 = with_registers(&[(1, 20), (2, 20)]);
    Op::SubtractYFromX(1, 2).execute(&mut chip8).unwrap();
    assert_eq!(chip8.registers()[1], 0);
    assert_eq!(chip8.registers()[0xF], 1);

    let mut chip8 = with_registers(&[(1, 20), (2, 50)]);
    Op::SubtractXFromY(1, 2).execute(&mut chip8).unwrap();
    assert_eq!(chip8.registers()[1], 30);
    assert_eq!(chip8.registers()[2], 50);
    assert_eq!(chip8.registers()[0xF], 1);

    let mut chip8 = with_registers(&[(1, 50), (2, 20)]);
    Op::SubtractXFromY(1, 2).execute(&mut chip8).unwrap();
    assert_eq!(chip8.registers()[1], 226);
    assert_eq!(chip8.registers()[0xF], 0);
}

#[test]
fn shifts_read_vy_and_put_the_lost_bit_in_vf() {
    let mut chip8 = with_registers(&[(1, 0xFF), (2, 0b0000_0101)]);
    Op::ShiftRight(1, 2).execute(&mut chip8).unwrap();
    assert_eq!(chip8.registers()[1], 0b0000_0010);
    assert_eq!(chip8.registers()[2], 0b0000_0101);
    assert_eq!(chip8.registers()[0xF], 1);

    let mut chip8 = with_registers(&[(1, 0xFF), (2, 0b0000_0100)]);
    Op::ShiftRight(1, 2).execute(&mut chip8).unwrap();
    assert_eq!(chip8.registers()[1], 0b0000_0010);
    assert_eq!(chip8.registers()[0xF], 0);

    let mut chip8 = with_registers(&[(1, 0x00), (2, 0b1100_0001)]);
    Op::ShiftLeft(1, 2).execute(&mut chip8).unwrap();
    assert_eq!(chip8.registers()[1], 0b1000_0010);
    assert_eq!(chip8.registers()[2], 0b1100_0001);
    assert_eq!(chip8.registers()[0xF], 1);

    let mut chip8 = with_registers(&[(1, 0x00), (2, 0b0100_0001)]);
    Op::ShiftLeft(1, 2).execute(&mut chip8).unwrap();
    assert_eq!(chip8.registers()[1], 0b1000_0010);
    assert_eq!(chip8.registers()[0xF], 0);
}

#[test]
fn register_to_register_operations() {
    let mut chip8 = with_registers(&[(1, 0b1100), (2, 0b1010)]);
    Op::SetRegister(1, 2).execute(&mut chip8).unwrap();
    assert_eq!(chip8.registers()[1], 0b1010);

    let mut chip8 = with_registers(&[(1, 0b1100), (2, 0b1010)]);
    Op::OrRegister(1, 2).execute(&mut chip8).unwrap();
    assert_eq!(chip8.registers()[1], 0b1110);

    let mut chip8 = with_registers(&[(1, 0b1100), (2, 0b1010)]);
    Op::AndRegister(1, 2).execute(&mut chip8).unwrap();
    assert_eq!(chip8.registers()[1], 0b1000);

    let mut chip8 = with_registers(&[(1, 0b1100), (2, 0b1010), (0xF, 9)]);
    Op::XorRegister(1, 2).execute(&mut chip8).unwrap();
    assert_eq!(chip8.registers()[1], 0b0110);
    assert_eq!(chip8.registers()[2], 0b1010);
    assert_eq!(chip8.registers()[0xF], 9);
}

#[test]
fn clear_screen_turns_every_pixel_off() {
    let mut chip8 = machine();
    Op::FontCharacter(0).execute(&mut chip8).unwrap();
    Op::Display(0, 0, 5).execute(&mut chip8).unwrap();
    assert!(!lit(&chip8).is_empty());
    chip8.acknowledge_redraw();

    assert_eq!(Op::ClearScreen.execute(&mut chip8), Ok(()));
    assert!(chip8.display().iter().all(|pixel| !pixel));
    assert!(chip8.needs_redraw());

    let once = chip8.clone();
    assert_eq!(Op::ClearScreen.execute(&mut chip8), Ok(()));
    assert_eq!(chip8, once);
}

#[test]
fn call_then_return_restores_the_machine() {
    let mut chip8 = machine();
    Op::Jump(0x345).execute(&mut chip8).unwrap();
    let before = chip8.clone();

    assert_eq!(Op::CallSubroutine(0x400).execute(&mut chip8), Ok(()));
    assert_eq!(chip8.program_counter(), 0x400);
    assert_eq!(chip8.stack(), vec![0x345]);

    assert_eq!(Op::Return.execute(&mut chip8), Ok(()));
    assert_eq!(chip8.program_counter(), 0x345);
    assert_eq!(chip8.stack(), Vec::<u16>::new());
    assert_eq!(chip8, before);
}

#[test]
fn sixteen_calls_nest_and_the_seventeenth_overflows() {
    let mut chip8 = machine();
    for depth in 0..16u16 {
        assert_eq!(Op::CallSubroutine(0x300 + depth).execute(&mut chip8), Ok(()));
        assert_eq!(chip8.stack().len(), depth as usize + 1);
    }
    let full = chip8.clone();
    assert_eq!(Op::CallSubroutine(0x400).execute(&mut chip8), Err(Error::StackOverflow));
    assert_eq!(chip8, full);
    assert_eq!(chip8.program_counter(), 0x30F);

    let mut expected = vec![0x200u16];
    expected.extend(0x300..0x30F);
    assert_eq!(chip8.stack(), expected);

    for depth in (0..16u16).rev() {
        assert_eq!(Op::Return.execute(&mut chip8), Ok(()));
        assert_eq!(chip8.program_counter(), expected[depth as usize]);
    }
    assert_eq!(chip8, machine());
}

#[test]
fn return_on_an_empty_stack_underflows() {
    let mut chip8 = machine();
    let before = chip8.clone();
    assert_eq!(Op::Return.execute(&mut chip8), Err(Error::StackUnderflow));
    assert_eq!(chip8, before);
}

#[test]
fn jumps_set_the_program_counter() {
    let mut chip8 = machine();
    assert_eq!(Op::Jump(0xFFF).execute(&mut chip8), Ok(()));
    assert_eq!(chip8.program_counter(), 0xFFF);

    let mut chip8 = with_registers(&[(0, 0x10)]);
    assert_eq!(Op::JumpWithOffset(0x300).execute(&mut chip8), Ok(()));
    assert_eq!(chip8.program_counter(), 0x310);

    let mut chip8 = with_registers(&[(0, 0xFF)]);
    assert_eq!(Op::JumpWithOffset(0xF00).execute(&mut chip8), Ok(()));
    assert_eq!(chip8.program_counter(), 0xFFF);
}

#[test]
fn a_jump_with_offset_past_the_memory_is_a_fault() {
    let mut chip8 = with_registers(&[(0, 0x01)]);
    let before = chip8.clone();
    assert_eq!(Op::JumpWithOffset(0xFFF).execute(&mut chip8), Err(Error::MemoryOutOfBounds));
    assert_eq!(chip8, before);
}

#[test]
fn skips_add_two_to_the_program_counter() {
    let mut chip8 = with_registers(&[(1, 0x42), (2, 0x42), (3, 0x43)]);
    Op::SkipEqual(1, 0x42).execute(&mut chip8).unwrap();
    assert_eq!(chip8.program_counter(), 0x202);
    Op::SkipEqual(1, 0x43).execute(&mut chip8).unwrap();
    assert_eq!(chip8.program_counter(), 0x202);
    Op::SkipNotEqual(1, 0x43).execute(&mut chip8).unwrap();
    assert_eq!(chip8.program_counter(), 0x204);
    Op::SkipNotEqual(1, 0x42).execute(&mut chip8).unwrap();
    assert_eq!(chip8.program_counter(), 0x204);
    Op::SkipRegisterEqual(1, 2).execute(&mut chip8).unwrap();
    assert_eq!(chip8.program_counter(), 0x206);
    Op::SkipRegisterEqual(1, 3).execute(&mut chip8).unwrap();
    assert_eq!(chip8.program_counter(), 0x206);
}

#[test]
fn a_skip_past_the_end_of_memory_is_a_fault() {
    let mut chip8 = machine();
    Op::Jump(0xFFE).execute(&mut chip8).unwrap();
    assert_eq!(Op::SkipEqual(0, 0).execute(&mut chip8), Ok(()));
    assert_eq!(chip8.program_counter(), 0x1000);
    let before = chip8.clone();
    assert_eq!(Op::SkipEqual(0, 0).execute(&mut chip8), Err(Error::MemoryOutOfBounds));
    assert_eq!(chip8, before);
    assert_eq!(Op::SkipEqual(0, 1).execute(&mut chip8), Ok(()));
    assert_eq!(chip8, before);

    let mut chip8 = machine();
    Op::Jump(0xFFF).execute(&mut chip8).unwrap();
    assert_eq!(Op::SkipNotEqual(0, 1).execute(&mut chip8), Err(Error::MemoryOutOfBounds));
    assert_eq!(chip8.program_counter(), 0xFFF);
}

#[test]
fn key_skips_look_at_the_key_named_by_the_register() {
    let mut chip8 = with_registers(&[(1, 0x7), (2, 0x8), (3, 0x17)]);
    chip8.set_key(0x7, true).unwrap();
    Op::SkipIfPressed(1).execute(&mut chip8).unwrap();
    assert_eq!(chip8.program_counter(), 0x202);
    Op::SkipIfPressed(2).execute(&mut chip8).unwrap();
    assert_eq!(chip8.program_counter(), 0x202);
    Op::SkipIfNotPressed(2).execute(&mut chip8).unwrap();
    assert_eq!(chip8.program_counter(), 0x204);
    Op::SkipIfNotPressed(1).execute(&mut chip8).unwrap();
    assert_eq!(chip8.program_counter(), 0x204);
    // the pad has no key 0x17: it is never pressed
    Op::SkipIfPressed(3).execute(&mut chip8).unwrap();
    assert_eq!(chip8.program_counter(), 0x204);
    Op::SkipIfNotPressed(3).execute(&mut chip8).unwrap();
    assert_eq!(chip8.program_counter(), 0x206);
    chip8.set_key(0x7, false).unwrap();
    Op::SkipIfPressed(1).execute(&mut chip8).unwrap();
    assert_eq!(chip8.program_counter(), 0x206);
}

#[test]
fn index_operations() {
    let mut chip8 = with_registers(&[(4, 0x12)]);
    Op::SetIndex(0xABC).execute(&mut chip8).unwrap();
    assert_eq!(chip8.index_register(), 0xABC);
    Op::AddToIndex(4).execute(&mut chip8).unwrap();
    assert_eq!(chip8.index_register(), 0xACE);
    assert_eq!(chip8.registers()[0xF], 0);
}

#[test]
fn the_index_register_holds_sixteen_bits_and_no_more() {
    let mut chip8 = with_registers(&[(4, 0xFF)]);
    Op::SetIndex(0xFFF).execute(&mut chip8).unwrap();
    // 0xFFF + 240 * 0xFF = 0xFF0F
    for _ in 0..240 {
        assert_eq!(Op::AddToIndex(4).execute(&mut chip8), Ok(()));
    }
    assert_eq!(chip8.index_register(), 0xFF0F);
    Op::SetImmediate(4, 0xF0).execute(&mut chip8).unwrap();
    assert_eq!(Op::AddToIndex(4).execute(&mut chip8), Ok(()));
    assert_eq!(chip8.index_register(), 0xFFFF);
    Op::SetImmediate(4, 0x01).execute(&mut chip8).unwrap();
    let before = chip8.clone();
    assert_eq!(Op::AddToIndex(4).execute(&mut chip8), Err(Error::MemoryOutOfBounds));
    assert_eq!(chip8, before);
    Op::SetImmediate(4, 0x00).execute(&mut chip8).unwrap();
    assert_eq!(Op::AddToIndex(4).execute(&mut chip8), Ok(()));
    assert_eq!(chip8.index_register(), 0xFFFF);
}

#[test]
fn font_character_points_at_the_glyph_of_the_low_nibble() {
    for value in [0x00u8, 0x01, 0x0A, 0x0F, 0x10, 0x2B, 0xFF] {
        let mut chip8 = with_registers(&[(5, value)]);
        Op::FontCharacter(5).execute(&mut chip8).unwrap();
        assert_eq!(chip8.index_register(), 0x050 + 5 * (value as u16 & 0xF));
    }
    let mut chip8 = with_registers(&[(5, 0x0B)]);
    Op::FontCharacter(5).execute(&mut chip8).unwrap();
    let start = chip8.index_register() as usize;
    assert_eq!(&chip8.memory()[start..start + 5], &[0xE0, 0x90, 0xE0, 0x90, 0xE0]);
}

#[test]
fn decimal_conversion_writes_three_digits() {
    let cases = [
        (255u8, [2u8, 5, 5]),
        (0, [0, 0, 0]),
        (123, [1, 2, 3]),
        (9, [0, 0, 9]),
        (40, [0, 4, 0]),
        (100, [1, 0, 0]),
    ];
    for (value, digits) in cases {
        let mut chip8 = with_registers(&[(6, value)]);
        Op::SetIndex(0x300).execute(&mut chip8).unwrap();
        assert_eq!(Op::DecimalConversion(6).execute(&mut chip8), Ok(()));
        assert_eq!(&chip8.memory()[0x300..0x303], &digits);
        assert_eq!(chip8.memory()[0x2FF], 0);
        assert_eq!(chip8.memory()[0x303], 0);
        assert_eq!(chip8.index_register(), 0x300);
        assert_eq!(chip8.registers()[6], value);
    }
}

#[test]
fn decimal_conversion_needs_three_bytes_of_memory() {
    let mut chip8 = with_registers(&[(6, 255)]);
    Op::SetIndex(0xFFD).execute(&mut chip8).unwrap();
    assert_eq!(Op::DecimalConversion(6).execute(&mut chip8), Ok(()));
    assert_eq!(&chip8.memory()[0xFFD..], &[2, 5, 5]);

    let mut chip8 = with_registers(&[(6, 255)]);
    Op::SetIndex(0xFFE).execute(&mut chip8).unwrap();
    let before = chip8.clone();
    assert_eq!(Op::DecimalConversion(6).execute(&mut chip8), Err(Error::MemoryOutOfBounds));
    assert_eq!(chip8, before);
}

#[test]
fn store_writes_v0_to_vx_and_load_reads_them_back() {
    let mut chip8 = with_registers(&[(0, 10), (1, 11), (2, 12), (3, 13)]);
    Op::SetIndex(0x400).execute(&mut chip8).unwrap();
    assert_eq!(Op::Store(2).execute(&mut chip8), Ok(()));
    assert_eq!(&chip8.memory()[0x400..0x404], &[10, 11, 12, 0]);
    assert_eq!(chip8.index_register(), 0x400);

    let mut other = with_registers(&[(0, 1), (1, 2), (2, 3), (3, 4)]);
    poke(&mut other, 0x400, &[10, 11, 12, 13]);
    assert_eq!(Op::Load(2).execute(&mut other), Ok(()));
    assert_eq!(&other.registers()[0..4], &[10, 11, 12, 4]);
    assert_eq!(other.index_register(), 0x400);

    let mut all = with_registers(&[]);
    for x in 0..16 {
        Op::SetImmediate(x, 0xA0 + x as u8).execute(&mut all).unwrap();
    }
    Op::SetIndex(0xFF0).execute(&mut all).unwrap();
    assert_eq!(Op::Store(15).execute(&mut all), Ok(()));
    for x in 0..16 {
        assert_eq!(all.memory()[0xFF0 + x], 0xA0 + x as u8);
    }
}

#[test]
fn store_and_load_stay_inside_the_memory() {
    let mut chip8 = with_registers(&[(0, 1), (1, 2)]);
    Op::SetIndex(0xFFF).execute(&mut chip8).unwrap();
    assert_eq!(Op::Store(0).execute(&mut chip8), Ok(()));
    assert_eq!(chip8.memory()[0xFFF], 1);
    let before = chip8.clone();
    assert_eq!(Op::Store(1).execute(&mut chip8), Err(Error::MemoryOutOfBounds));
    assert_eq!(chip8, before);
    assert_eq!(Op::Load(1).execute(&mut chip8), Err(Error::MemoryOutOfBounds));
    assert_eq!(chip8, before);
    assert_eq!(Op::Load(0).execute(&mut chip8), Ok(()));
    assert_eq!(chip8, before);
}

#[test]
fn timer_operations() {
    let mut chip8 = with_registers(&[(1, 5), (2, 9)]);
    Op::SetDelayTimer(1).execute(&mut chip8).unwrap();
    Op::SetSoundTimer(2).execute(&mut chip8).unwrap();
    assert_eq!(chip8.delay_timer(), 5);
    assert_eq!(chip8.sound_timer(), 9);
    assert!(chip8.sound_on());
    Op::SetRegisterDelayTimer(7).execute(&mut chip8).unwrap();
    assert_eq!(chip8.registers()[7], 5);
}

#[test]
fn random_is_the_next_byte_of_the_generator_under_the_mask() {
    let mut state: u32 = 0xDEAD_BEEF;
    let mut chip8 = machine();
    chip8.seed(state);
    for mask in [0xFFu8, 0x0F, 0xF0, 0x55, 0x00, 0x01] {
        state = state.wrapping_mul(1664525).wrapping_add(1013904223);
        assert_eq!(Op::Random(4, mask).execute(&mut chip8), Ok(()));
        assert_eq!(chip8.registers()[4], (state >> 24) as u8 & mask);
    }
    // from the state 0: 1013904223 = 0x3C6EF35F, then 0x47502932
    let mut chip8 = machine();
    Op::Random(0, 0xFF).execute(&mut chip8).unwrap();
    assert_eq!(chip8.registers()[0], 0x3C);
    Op::Random(0, 0xFF).execute(&mut chip8).unwrap();
    assert_eq!(chip8.registers()[0], 0x47);
    Op::Random(0, 0x0F).execute(&mut chip8).unwrap();
    assert_eq!(chip8.registers()[0] & 0xF0, 0);
}

#[test]
fn get_key_suspends_until_a_key_goes_down() {
    let mut chip8 = machine();
    chip8.set_key(0x3, true).unwrap();
    assert_eq!(Op::GetKey(5).execute(&mut chip8), Ok(()));
    assert_eq!(chip8.awaiting_key(), Some(5));
    // a key that was down already does not end the wait, nor does one that goes up
    chip8.set_key(0x3, true).unwrap();
    assert_eq!(chip8.awaiting_key(), Some(5));
    chip8.set_key(0x3, false).unwrap();
    assert_eq!(chip8.awaiting_key(), Some(5));
    assert_eq!(chip8.registers()[5], 0);
    chip8.set_key(0xC, true).unwrap();
    assert_eq!(chip8.awaiting_key(), None);
    assert_eq!(chip8.registers()[5], 0xC);
    assert!(chip8.keypad()[0xC]);
    // no one waits any more
    chip8.set_key(0xD, true).unwrap();
    assert_eq!(chip8.registers()[5], 0xC);
}

#[test]
fn the_pad_has_sixteen_keys() {
    let mut chip8 = machine();
    assert_eq!(chip8.set_key(15, true), Ok(()));
    assert!(chip8.keypad()[15]);
    let before = chip8.clone();
    assert_eq!(chip8.set_key(16, true), Err(Error::InvalidOperand));
    assert_eq!(chip8, before);
}

#[test]
fn an_operand_outside_its_field_is_a_fault() {
    let invalid = [
        Op::Jump(0x1000),
        Op::CallSubroutine(0x1000),
        Op::SetIndex(0x1000),
        Op::JumpWithOffset(0xFFFF),
        Op::SkipEqual(16, 0),
        Op::SkipNotEqual(16, 0),
        Op::SkipRegisterEqual(16, 0),
        Op::SkipRegisterEqual(0, 16),
        Op::SetImmediate(16, 1),
        Op::SetRegister(0, 16),
        Op::Add(16, 1),
        Op::OrRegister(16, 0),
        Op::AndRegister(0, 16),
        Op::XorRegister(usize::MAX, 0),
        Op::AddRegister(16, 0),
        Op::SubtractYFromX(0, 16),
        Op::SubtractXFromY(16, 0),
        Op::ShiftRight(0, 16),
        Op::ShiftLeft(16, 0),
        Op::Random(16, 0xFF),
        Op::Display(16, 0, 1),
        Op::Display(0, 16, 1),
        Op::Display(0, 0, 16),
        Op::SkipIfPressed(16),
        Op::SkipIfNotPressed(16),
        Op::SetRegisterDelayTimer(16),
        Op::SetDelayTimer(16),
        Op::SetSoundTimer(16),
        Op::AddToIndex(16),
        Op::GetKey(16),
        Op::FontCharacter(16),
        Op::DecimalConversion(16),
        Op::Store(16),
        Op::Load(16),
    ];
    for op in invalid {
        let mut chip8 = with_registers(&[(0, 1), (1, 2)]);
        let before = chip8.clone();
        assert_eq!(op.execute(&mut chip8), Err(Error::InvalidOperand), "{op:?}");
        assert_eq!(chip8, before, "{op:?}");
    }
}

#[test]
fn a_sprite_is_drawn_from_its_most_significant_bit() {
    let mut chip8 = with_registers(&[(1, 10), (2, 5)]);
    poke(&mut chip8, 0x300, &[0b1010_0001, 0b1111_1111]);
    assert_eq!(Op::Display(1, 2, 2).execute(&mut chip8), Ok(()));
    let mut expected = vec![(10, 5), (12, 5), (17, 5)];
    expected.extend((10..18).map(|x| (x, 6)));
    assert_eq!(lit(&chip8), expected);
    assert_eq!(chip8.registers()[0xF], 0);
    assert!(chip8.needs_redraw());
}

#[test]
fn drawing_twice_turns_the_pixels_back_off_and_reports_the_collision() {
    let mut chip8 = with_registers(&[(1, 20), (2, 10)]);
    Op::FontCharacter(0).execute(&mut chip8).unwrap();
    let blank = chip8.clone();
    assert_eq!(Op::Display(1, 2, 5).execute(&mut chip8), Ok(()));
    assert_eq!(lit(&chip8).len(), 14);
    assert_eq!(chip8.registers()[0xF], 0);

    assert_eq!(Op::Display(1, 2, 5).execute(&mut chip8), Ok(()));
    assert!(chip8.display().iter().all(|pixel| !pixel));
    assert_eq!(chip8.display(), blank.display());
    assert_eq!(chip8.registers()[0xF], 1);
}

#[test]
fn a_collision_is_a_pixel_turned_off() {
    let mut chip8 = with_registers(&[(1, 0), (2, 0), (3, 4)]);
    poke(&mut chip8, 0x300, &[0b1111_0000]);
    Op::Display(1, 2, 1).execute(&mut chip8).unwrap();
    // next to the first: nothing is turned off
    Op::Display(3, 2, 1).execute(&mut chip8).unwrap();
    assert_eq!(chip8.registers()[0xF], 0);
    assert_eq!(lit(&chip8), (0..8).map(|x| (x, 0)).collect::<Vec<_>>());
    // over one pixel of it
    Op::SetImmediate(3, 7).execute(&mut chip8).unwrap();
    Op::Display(3, 2, 1).execute(&mut chip8).unwrap();
    assert_eq!(chip8.registers()[0xF], 1);
    let mut expected: Vec<_> = (0..7).map(|x| (x, 0)).collect();
    expected.extend((8..11).map(|x| (x, 0)));
    assert_eq!(lit(&chip8), expected);
    // a draw without a collision sets the flag back
    Op::SetImmediate(2, 9).execute(&mut chip8).unwrap();
    Op::Display(3, 2, 1).execute(&mut chip8).unwrap();
    assert_eq!(chip8.registers()[0xF], 0);
}

#[test]
fn the_position_is_taken_modulo_the_screen() {
    let mut chip8 = with_registers(&[(1, 64 + 3), (2, 32 + 4)]);
    poke(&mut chip8, 0x300, &[0b1000_0000]);
    Op::Display(1, 2, 1).execute(&mut chip8).unwrap();
    assert_eq!(lit(&chip8), vec![(3, 4)]);

    let mut chip8 = with_registers(&[(1, 255), (2, 255)]);
    poke(&mut chip8, 0x300, &[0b1000_0000]);
    Op::Display(1, 2, 1).execute(&mut chip8).unwrap();
    assert_eq!(lit(&chip8), vec![(63, 31)]);
}

#[test]
fn a_row_wraps_around_the_right_edge() {
    let mut chip8 = with_registers(&[(1, 60), (2, 3)]);
    poke(&mut chip8, 0x300, &[0b1111_1111]);
    Op::Display(1, 2, 1).execute(&mut chip8).unwrap();
    assert_eq!(
        lit(&chip8),
        vec![(0, 3), (1, 3), (2, 3), (3, 3), (60, 3), (61, 3), (62, 3), (63, 3)]
    );
}

#[test]
fn rows_below_the_bottom_edge_are_cut_off() {
    let mut chip8 = with_registers(&[(1, 0), (2, 30)]);
    poke(&mut chip8, 0x300, &[0x80, 0x80, 0x80, 0x80]);
    Op::Display(1, 2, 4).execute(&mut chip8).unwrap();
    assert_eq!(lit(&chip8), vec![(0, 30), (0, 31)]);
    assert_eq!(chip8.registers()[0xF], 0);
}

#[test]
fn a_sprite_of_no_rows_draws_nothing() {
    let mut chip8 = with_registers(&[(0xF, 1)]);
    Op::SetIndex(0xFFF).execute(&mut chip8).unwrap();
    assert_eq!(Op::Display(0, 0, 0).execute(&mut chip8), Ok(()));
    assert!(lit(&chip8).is_empty());
    assert_eq!(chip8.registers()[0xF], 0);
    assert!(chip8.needs_redraw());
}

#[test]
fn a_sprite_stands_inside_the_memory() {
    let mut chip8 = with_registers(&[(1, 0), (2, 0)]);
    poke(&mut chip8, 0xFFE, &[0xFF, 0x81]);
    assert_eq!(Op::Display(1, 2, 2).execute(&mut chip8), Ok(()));
    assert_eq!(lit(&chip8).len(), 10);
    let before = chip8.clone();
    assert_eq!(Op::Display(1, 2, 3).execute(&mut chip8), Err(Error::MemoryOutOfBounds));
    assert_eq!(chip8, before);
    // also where the rows that leave the memory would be cut off
    Op::SetImmediate(2, 31).execute(&mut chip8).unwrap();
    assert_eq!(Op::Display(1, 2, 3).execute(&mut chip8), Err(Error::MemoryOutOfBounds));
}

#[test]
fn the_collision_flag_can_move_the_second_draw() {
    // VF names the column: the first draw clears it, the second is elsewhere.
    let mut chip8 = with_registers(&[(0xF, 8), (2, 0)]);
    poke(&mut chip8, 0x300, &[0x80]);
    Op::Display(0xF, 2, 1).execute(&mut chip8).unwrap();
    assert_eq!(lit(&chip8), vec![(8, 0)]);
    assert_eq!(chip8.registers()[0xF], 0);
    Op::Display(0xF, 2, 1).execute(&mut chip8).unwrap();
    assert_eq!(lit(&chip8), vec![(0, 0), (8, 0)]);
    assert_eq!(chip8.registers()[0xF], 0);
}
