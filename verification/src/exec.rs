use vstd::prelude::*;
use crate::chip8::Chip8;
use crate::display::{blank, draw_sprite};
use crate::error::Error;
use crate::font::{glyph_address, FONT_START};
use crate::model::{Machine, FLAG_REGISTER};
use crate::op::Op;

verus! {

/// A call that was to make the step `expected` did so: on success the machine
/// is in the state that `expected` gives, on a fault the call returned that
/// fault and the machine is as it was.
pub(crate) open spec fn agrees(
    expected: Result<Machine, Error>,
    before: Machine,
    after: Machine,
    outcome: Result<(), Error>,
) -> bool {
    match expected {
        Ok(next) => outcome is Ok && after == next,
        Err(e) => outcome == Err::<(), Error>(e) && after == before,
    }
}

/// The low nibble of a byte is the byte modulo 16.
proof fn lemma_low_nibble(v: u8)
    by (bit_vector)
    ensures
        v & 0x0F == v % 16,
{
}

/// The lowest bit of a byte is the byte modulo 2.
proof fn lemma_low_bit(v: u8)
    by (bit_vector)
    ensures
        v & 1 == v % 2,
{
}

/// A shift to the left by one doubles modulo 256.
proof fn lemma_shift_left(v: u8)
    by (bit_vector)
    ensures
        v << 1u8 == (v * 2) % 256,
{
}

/// A shift to the right halves; by seven places it leaves the highest bit.
proof fn lemma_shift_right(v: u8)
    by (bit_vector)
    ensures
        v >> 1u8 == v / 2,
        v >> 7u8 == v / 128,
{
}

/// Copies `registers[0..=last]` to `ram` from `start` on.
fn store_registers(ram: &mut [u8; 4096], registers: &[u8; 16], start: usize, last: usize)
    requires
        last < 16,
        start + last < 4096,
    ensures
        final(ram)@ == Seq::new(
            4096,
            |a: int|
                if start <= a <= start + last {
                    registers@[a - start]
                } else {
                    old(ram)@[a]
                },
        ),
    no_unwind
{
    let ghost before = ram@;
    let mut r: usize = 0;
    while r <= last
        invariant
            r <= last + 1,
            last < 16,
            start + last < 4096,
            forall|a: int|
                0 <= a < 4096 ==> ram@[a] == if start <= a < start + r {
                    registers@[a - start]
                } else {
                    before[a]
                },
        decreases last + 1 - r,
    {
        ram[start + r] = registers[r];
        r = r + 1;
    }
    assert(ram@ =~= Seq::new(
        4096,
        |a: int|
            if start <= a <= start + last {
                registers@[a - start]
            } else {
                before[a]
            },
    ));
}

/// Copies `ram[start..=start + last]` to `registers` from V0 on.
fn load_registers(registers: &mut [u8; 16], ram: &[u8; 4096], start: usize, last: usize)
    requires
        last < 16,
        start + last < 4096,
    ensures
        final(registers)@ == Seq::new(
            16,
            |r: int|
                if r <= last {
                    ram@[start + r]
                } else {
                    old(registers)@[r]
                },
        ),
    no_unwind
{
    let ghost before = registers@;
    let mut r: usize = 0;
    while r <= last
        invariant
            r <= last + 1,
            last < 16,
            start + last < 4096,
            forall|i: int|
                0 <= i < 16 ==> registers@[i] == if i < r {
                    ram@[start + i]
                } else {
                    before[i]
                },
        decreases last + 1 - r,
    {
        registers[r] = ram[start + r];
        r = r + 1;
    }
    assert(registers@ =~= Seq::new(
        16,
        |i: int|
            if i <= last {
                ram@[start + i]
            } else {
                before[i]
            },
    ));
}

impl Chip8 {
    /// Puts `value` in V`x`.
    fn write_register(&mut self, x: usize, value: u8)
        requires
            x < 16,
        ensures
            final(self)@ == old(self)@.with_register(x, value),
    {
        proof {
            use_type_invariant(&*self);
        }
        self.registers[x] = value;
    }

    /// Puts `value` in V`x` and then the flag in VF.
    fn write_flagged(&mut self, x: usize, value: u8, flag: bool)
        requires
            x < 16,
        ensures
            final(self)@ == old(self)@.with_flagged(x, value, flag),
    {
        proof {
            use_type_invariant(&*self);
        }
        self.registers[x] = value;
        self.registers[FLAG_REGISTER] = if flag {
            1
        } else {
            0
        };
    }

    /// Adds `nn` to V`x`, modulo 256.
    fn add_immediate(&mut self, x: usize, nn: u8)
        requires
            x < 16,
        ensures
            final(self)@ == old(self)@.with_register(x, ((old(self)@.v(x) + nn) % 256) as u8),
    {
        let sum = self.registers[x].wrapping_add(nn);
        self.write_register(x, sum);
    }

    /// Adds V`y` to V`x`, modulo 256, and puts the carry in VF.
    fn add_registers(&mut self, x: usize, y: usize)
        requires
            x < 16,
            y < 16,
        ensures
            final(self)@ == old(self)@.with_flagged(
                x,
                ((old(self)@.v(x) + old(self)@.v(y)) % 256) as u8,
                old(self)@.v(x) + old(self)@.v(y) > 255,
            ),
    {
        let vx = self.registers[x];
        let vy = self.registers[y];
        self.write_flagged(x, vx.wrapping_add(vy), vx as u16 + vy as u16 > 255);
    }

    /// Puts V`a` minus V`b`, modulo 256, in V`x`, and in VF whether nothing
    /// was borrowed.
    fn subtract(&mut self, x: usize, a: usize, b: usize)
        requires
            x < 16,
            a < 16,
            b < 16,
        ensures
            final(self)@ == old(self)@.with_flagged(
                x,
                ((old(self)@.v(a) - old(self)@.v(b)) % 256) as u8,
                old(self)@.v(a) >= old(self)@.v(b),
            ),
    {
        let va = self.registers[a];
        let vb = self.registers[b];
        self.write_flagged(x, va.wrapping_sub(vb), va >= vb);
    }

    /// Puts V`y`, shifted right by one, in V`x`, and the bit that fell out in VF.
    fn shift_right(&mut self, x: usize, y: usize)
        requires
            x < 16,
            y < 16,
        ensures
            final(self)@ == old(self)@.with_flagged(
                x,
                old(self)@.v(y) / 2,
                old(self)@.v(y) % 2 == 1,
            ),
    {
        let vy = self.registers[y];
        proof {
            lemma_shift_right(vy);
            lemma_low_bit(vy);
        }
        self.write_flagged(x, vy >> 1u8, vy & 1 == 1);
    }

    /// Puts V`y`, shifted left by one, in V`x`, and the bit that fell out in VF.
    fn shift_left(&mut self, x: usize, y: usize)
        requires
            x < 16,
            y < 16,
        ensures
            final(self)@ == old(self)@.with_flagged(
                x,
                ((old(self)@.v(y) * 2) % 256) as u8,
                old(self)@.v(y) >= 128,
            ),
    {
        let vy = self.registers[y];
        proof {
            lemma_shift_left(vy);
            lemma_shift_right(vy);
        }
        self.write_flagged(x, vy << 1u8, vy >> 7u8 == 1);
    }

    /// Puts a random byte, masked by `mask`, in V`x`.
    fn random(&mut self, x: usize, mask: u8)
        requires
            x < 16,
        ensures
            final(self)@ == old(self)@.randomized(x, mask),
    {
        proof {
            use_type_invariant(&*self);
        }
        let next = ((self.rng as u64 * 1664525 + 1013904223) % 0x1_0000_0000) as u32;
        self.rng = next;
        self.registers[x] = ((next / 0x100_0000) as u8) & mask;
    }

    /// Sets the program counter.
    fn jump(&mut self, address: u16)
        requires
            address <= 0xFFF,
        ensures
            final(self)@ == (Machine { pc: address, ..old(self)@ }),
    {
        proof {
            use_type_invariant(&*self);
        }
        self.program_counter = address;
    }

    /// Sets the program counter to `address` plus V0, if that is in memory.
    fn jump_with_offset(&mut self, address: u16) -> (outcome: Result<(), Error>)
        requires
            address <= 0xFFF,
        ensures
            agrees(old(self)@.jumped_with_offset(address), old(self)@, final(self)@, outcome),
    {
        proof {
            use_type_invariant(&*self);
        }
        let target = address + self.registers[0] as u16;
        if target >= 4096 {
            return Err(Error::MemoryOutOfBounds);
        }
        self.program_counter = target;
        Ok(())
    }

    /// Pushes the program counter and jumps, if the stack has room.
    fn call_subroutine(&mut self, address: u16) -> (outcome: Result<(), Error>)
        requires
            address <= 0xFFF,
        ensures
            agrees(old(self)@.called(address), old(self)@, final(self)@, outcome),
    {
        proof {
            use_type_invariant(&*self);
        }
        if self.stack_depth >= 16 {
            return Err(Error::StackOverflow);
        }
        self.stack_depth = self.stack_depth + 1;
        self.stack[self.stack_depth - 1] = self.program_counter;
        self.program_counter = address;
        assert(self@.stack =~= old(self)@.stack.push(old(self)@.pc));
        Ok(())
    }

    /// Pops the program counter, if the stack holds one.
    fn return_from_subroutine(&mut self) -> (outcome: Result<(), Error>)
        ensures
            agrees(old(self)@.returned(), old(self)@, final(self)@, outcome),
    {
        proof {
            use_type_invariant(&*self);
        }
        if self.stack_depth == 0 {
            return Err(Error::StackUnderflow);
        }
        self.program_counter = self.stack[self.stack_depth - 1];
        self.stack[self.stack_depth - 1] = 0;
        self.stack_depth = self.stack_depth - 1;
        assert(self@.stack =~= old(self)@.stack.drop_last());
        Ok(())
    }

    /// Skips the next instruction where `condition` holds and there is one to
    /// go on with.
    fn skip_if(&mut self, condition: bool) -> (outcome: Result<(), Error>)
        ensures
            agrees(old(self)@.skip_if(condition), old(self)@, final(self)@, outcome),
    {
        proof {
            use_type_invariant(&*self);
        }
        if !condition {
            Ok(())
        } else if self.program_counter > 4094 {
            Err(Error::MemoryOutOfBounds)
        } else {
            self.program_counter = self.program_counter + 2;
            Ok(())
        }
    }

    /// Whether `key` is down.
    fn key_down(&self, key: u8) -> (down: bool)
        ensures
            down == self@.key_down(key),
    {
        key < 16 && self.keypad[key as usize]
    }

    /// Suspends the machine until a key goes down, which V`x` is to receive.
    fn await_key(&mut self, x: usize)
        requires
            x < 16,
        ensures
            final(self)@ == (Machine { awaiting_key: Some(x), ..old(self)@ }),
    {
        proof {
            use_type_invariant(&*self);
        }
        self.awaiting_key = Some(x);
    }

    /// Starts the delay timer at V`x`.
    fn set_delay_timer(&mut self, x: usize)
        requires
            x < 16,
        ensures
            final(self)@ == (Machine { delay: old(self)@.v(x), ..old(self)@ }),
    {
        proof {
            use_type_invariant(&*self);
        }
        self.delay_timer.set(self.registers[x]);
    }

    /// Starts the sound timer at V`x`.
    fn set_sound_timer(&mut self, x: usize)
        requires
            x < 16,
        ensures
            final(self)@ == (Machine { sound: old(self)@.v(x), ..old(self)@ }),
    {
        proof {
            use_type_invariant(&*self);
        }
        self.sound_timer.set(self.registers[x]);
    }

    /// Sets the index register.
    fn set_index(&mut self, address: u16)
        ensures
            final(self)@ == (Machine { index: address, ..old(self)@ }),
    {
        proof {
            use_type_invariant(&*self);
        }
        self.index_register = address;
    }

    /// Adds V`x` to the index register, if the sum fits it.
    fn add_to_index(&mut self, x: usize) -> (outcome: Result<(), Error>)
        requires
            x < 16,
        ensures
            agrees(old(self)@.index_advanced(x), old(self)@, final(self)@, outcome),
    {
        proof {
            use_type_invariant(&*self);
        }
        match self.index_register.checked_add(self.registers[x] as u16) {
            Some(sum) => {
                self.index_register = sum;
                Ok(())
            },
            None => Err(Error::MemoryOutOfBounds),
        }
    }

    /// Points the index register at the glyph for the low nibble of V`x`.
    fn font_character(&mut self, x: usize)
        requires
            x < 16,
        ensures
            final(self)@ == (Machine { index: glyph_address(old(self)@.v(x)), ..old(self)@ }),
    {
        proof {
            use_type_invariant(&*self);
            lemma_low_nibble(self.registers[x as int]);
        }
        let digit = self.registers[x] & 0x0F;
        self.index_register = FONT_START + 5 * digit as u16;
    }

    /// Writes the decimal digits of V`x` to memory at I, if they fit there.
    fn decimal_conversion(&mut self, x: usize) -> (outcome: Result<(), Error>)
        requires
            x < 16,
        ensures
            agrees(old(self)@.decimal_stored(x), old(self)@, final(self)@, outcome),
    {
        proof {
            use_type_invariant(&*self);
        }
        let start = self.index_register as usize;
        if start + 2 >= 4096 {
            return Err(Error::MemoryOutOfBounds);
        }
        let value = self.registers[x];
        self.ram[start] = value / 100;
        self.ram[start + 1] = (value / 10) % 10;
        self.ram[start + 2] = value % 10;
        Ok(())
    }

    /// Writes V0 to V`x` to memory at I, if they fit there.
    fn store(&mut self, x: usize) -> (outcome: Result<(), Error>)
        requires
            x < 16,
        ensures
            agrees(old(self)@.registers_stored(x), old(self)@, final(self)@, outcome),
    {
        proof {
            use_type_invariant(&*self);
        }
        let start = self.index_register as usize;
        if start + x >= 4096 {
            return Err(Error::MemoryOutOfBounds);
        }
        store_registers(&mut self.ram, &self.registers, start, x);
        Ok(())
    }

    /// Reads V0 to V`x` from memory at I, if they stand there.
    fn load_from_memory(&mut self, x: usize) -> (outcome: Result<(), Error>)
        requires
            x < 16,
        ensures
            agrees(old(self)@.registers_loaded(x), old(self)@, final(self)@, outcome),
    {
        proof {
            use_type_invariant(&*self);
        }
        let start = self.index_register as usize;
        if start + x >= 4096 {
            return Err(Error::MemoryOutOfBounds);
        }
        load_registers(&mut self.registers, &self.ram, start, x);
        Ok(())
    }

    /// Turns every pixel off.
    fn clear_screen(&mut self)
        ensures
            final(self)@ == (Machine { display: blank(), needs_redraw: true, ..old(self)@ }),
    {
        proof {
            use_type_invariant(&*self);
        }
        self.display_buffer = [false;2048];
        self.needs_redraw = true;
        assert(self@.display =~= blank());
    }

    /// Draws the sprite of `height` rows at I at the place that V`x` and V`y`
    /// name, if the sprite stands in memory.
    fn draw(&mut self, x: usize, y: usize, height: u8) -> (outcome: Result<(), Error>)
        requires
            x < 16,
            y < 16,
        ensures
            agrees(old(self)@.sprite_drawn(x, y, height), old(self)@, final(self)@, outcome),
    {
        proof {
            use_type_invariant(&*self);
        }
        let start = self.index_register as usize;
        if start + height as usize > 4096 {
            return Err(Error::MemoryOutOfBounds);
        }
        let x0 = (self.registers[x] % 64) as usize;
        let y0 = (self.registers[y] % 32) as usize;
        let collision = draw_sprite(
            &mut self.display_buffer,
            &self.ram,
            start,
            height as usize,
            x0,
            y0,
        );
        self.registers[FLAG_REGISTER] = if collision {
            1
        } else {
            0
        };
        self.needs_redraw = true;
        Ok(())
    }
}

impl Op {
    /// Applies the operation to the machine: `Machine::execute` says what that
    /// is for each operation. On a fault the machine is as it was. An operand
    /// outside its field is a fault, whatever the operation.
    pub fn execute(&self, chip8: &mut Chip8) -> (outcome: Result<(), Error>)
        ensures
            match outcome {
                Ok(()) => old(chip8)@.execute(*self) == Ok::<Machine, Error>(final(chip8)@),
                Err(e) => old(chip8)@.execute(*self) == Err::<Machine, Error>(e) && final(chip8)@
                    == old(chip8)@,
            },
            old(chip8)@.wf(),
            final(chip8)@.wf(),
    {
        proof {
            use_type_invariant(&*chip8);
        }
        if !self.is_valid() {
            return Err(Error::InvalidOperand);
        }
        let outcome = match *self {
            Op::ClearScreen => {
                chip8.clear_screen();
                Ok(())
            },
            Op::Return => chip8.return_from_subroutine(),
            Op::Jump(address) => {
                chip8.jump(address);
                Ok(())
            },
            Op::CallSubroutine(address) => chip8.call_subroutine(address),
            Op::SkipEqual(x, nn) => chip8.skip_if(chip8.registers[x] == nn),
            Op::SkipNotEqual(x, nn) => chip8.skip_if(chip8.registers[x] != nn),
            Op::SkipRegisterEqual(x, y) => chip8.skip_if(chip8.registers[x] == chip8.registers[y]),
            Op::SetImmediate(x, nn) => {
                chip8.write_register(x, nn);
                Ok(())
            },
            Op::SetRegister(x, y) => {
                chip8.write_register(x, chip8.registers[y]);
                Ok(())
            },
            Op::Add(x, nn) => {
                chip8.add_immediate(x, nn);
                Ok(())
            },
            Op::OrRegister(x, y) => {
                chip8.write_register(x, chip8.registers[x] | chip8.registers[y]);
                Ok(())
            },
            Op::AndRegister(x, y) => {
                chip8.write_register(x, chip8.registers[x] & chip8.registers[y]);
                Ok(())
            },
            Op::XorRegister(x, y) => {
                chip8.write_register(x, chip8.registers[x] ^ chip8.registers[y]);
                Ok(())
            },
            Op::AddRegister(x, y) => {
                chip8.add_registers(x, y);
                Ok(())
            },
            Op::SubtractYFromX(x, y) => {
                chip8.subtract(x, x, y);
                Ok(())
            },
            Op::SubtractXFromY(x, y) => {
                chip8.subtract(x, y, x);
                Ok(())
            },
            Op::ShiftRight(x, y) => {
                chip8.shift_right(x, y);
                Ok(())
            },
            Op::ShiftLeft(x, y) => {
                chip8.shift_left(x, y);
                Ok(())
            },
            Op::SetIndex(address) => {
                chip8.set_index(address);
                Ok(())
            },
            Op::JumpWithOffset(address) => chip8.jump_with_offset(address),
            Op::Random(x, mask) => {
                chip8.random(x, mask);
                Ok(())
            },
            Op::Display(x, y, height) => chip8.draw(x, y, height),
            Op::SkipIfPressed(x) => {
                let down = chip8.key_down(chip8.registers[x]);
                chip8.skip_if(down)
            },
            Op::SkipIfNotPressed(x) => {
                let down = chip8.key_down(chip8.registers[x]);
                chip8.skip_if(!down)
            },
            Op::SetRegisterDelayTimer(x) => {
                chip8.write_register(x, chip8.delay_timer.get());
                Ok(())
            },
            Op::SetDelayTimer(x) => {
                chip8.set_delay_timer(x);
                Ok(())
            },
            Op::SetSoundTimer(x) => {
                chip8.set_sound_timer(x);
                Ok(())
            },
            Op::AddToIndex(x) => chip8.add_to_index(x),
            Op::GetKey(x) => {
                chip8.await_key(x);
                Ok(())
            },
            Op::FontCharacter(x) => {
                chip8.font_character(x);
                Ok(())
            },
            Op::DecimalConversion(x) => chip8.decimal_conversion(x),
            Op::Store(x) => chip8.store(x),
            Op::Load(x) => chip8.load_from_memory(x),
        };
        proof {
            use_type_invariant(&*chip8);
        }
        outcome
    }
}

} // verus!
