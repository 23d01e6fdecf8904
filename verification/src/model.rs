use vstd::prelude::*;
use crate::display::{blank, collides, drawn};
use crate::error::Error;
use crate::font::{glyph_address, FONT, FONT_START};
use crate::op::{decode_spec, Op};
use crate::timer::ticked;

verus! {

/// Bytes of memory.
pub const MEMORY_SIZE: usize = 4096;

/// Where a program is loaded and where it starts to run.
pub const PROGRAM_START: u16 = 0x200;

/// The largest program that fits between the load address and the end of memory.
pub const MAX_ROM_SIZE: usize = 3584;

/// Return addresses that the stack holds at most.
pub const STACK_CAPACITY: usize = 16;

/// The register that receives the carry, borrow, shift and collision flags.
pub const FLAG_REGISTER: usize = 0xF;

/// Instructions per second of a freshly loaded machine.
pub const DEFAULT_INSTRUCTIONS_PER_SECOND: u32 = 700;

/// Timer ticks per second of a freshly loaded machine.
pub const DEFAULT_TIMER_HZ: u32 = 60;

/// Microseconds in one second.
pub const MICROS_PER_SECOND: u32 = 1_000_000;

/// The state that follows `state` in the machine's random number generator, a
/// linear congruential generator that runs through all 32-bit states.
pub open spec fn next_random(state: u32) -> u32 {
    ((state * 1664525 + 1013904223) % 0x1_0000_0000) as u32
}

/// The random byte that a generator state stands for: its top eight bits.
pub open spec fn random_byte(state: u32) -> u8 {
    (state / 0x100_0000) as u8
}

/// The machine as a mathematical value: what every contract of this library
/// speaks of.
pub struct Machine {
    /// 4096 bytes.
    pub memory: Seq<u8>,
    /// V0 to VF.
    pub registers: Seq<u8>,
    /// The index register I.
    pub index: u16,
    /// The program counter.
    pub pc: u16,
    /// The return addresses, the most recent last.
    pub stack: Seq<u16>,
    /// The delay timer.
    pub delay: u8,
    /// The sound timer; a tone sounds while it is above zero.
    pub sound: u8,
    /// 64 by 32 pixels, row after row.
    pub display: Seq<bool>,
    /// The sixteen keys; `true` is pressed.
    pub keypad: Seq<bool>,
    /// The register that waits for a key, while the machine is suspended.
    pub awaiting_key: Option<usize>,
    /// Set by every instruction that changes the display.
    pub needs_redraw: bool,
    /// The state of the random number generator.
    pub rng: u32,
    /// Instructions that make up one second.
    pub instructions_per_second: u32,
    /// Timer ticks in one second.
    pub timer_hz: u32,
    /// The part of a timer tick that has gone by, counted in units of which
    /// `instructions_per_second` make one tick.
    pub phase: u32,
    /// The part of an instruction's time that has gone by, counted in units
    /// of which a million make one instruction.
    pub carry: u32,
}

impl Machine {
    /// The state is one that the machine can be in.
    pub open spec fn wf(self) -> bool {
        &&& self.memory.len() == MEMORY_SIZE
        &&& self.registers.len() == 16
        &&& self.display.len() == 2048
        &&& self.keypad.len() == 16
        &&& self.stack.len() <= STACK_CAPACITY
        &&& forall|i: int| 0 <= i < self.stack.len() ==> self.stack[i] <= MEMORY_SIZE
        &&& self.pc <= MEMORY_SIZE
        &&& (self.awaiting_key matches Some(x) ==> x < 16)
        &&& self.instructions_per_second >= 1
        &&& self.phase < self.instructions_per_second
        &&& self.carry < MICROS_PER_SECOND
    }

    /// The machine right after `rom` has been loaded: the font and the program
    /// in an otherwise zeroed memory, the program counter at the program's
    /// first byte, everything else zero, empty or off.
    pub open spec fn boot(rom: Seq<u8>) -> Machine {
        Machine {
            memory: Seq::new(
                MEMORY_SIZE as nat,
                |a: int|
                    if FONT_START <= a < FONT_START + 80 {
                        FONT@[a - FONT_START]
                    } else if PROGRAM_START <= a < PROGRAM_START + rom.len() {
                        rom[a - PROGRAM_START]
                    } else {
                        0u8
                    },
            ),
            registers: Seq::new(16, |i: int| 0u8),
            index: 0,
            pc: PROGRAM_START,
            stack: Seq::empty(),
            delay: 0,
            sound: 0,
            display: blank(),
            keypad: Seq::new(16, |k: int| false),
            awaiting_key: None,
            needs_redraw: false,
            rng: 0,
            instructions_per_second: DEFAULT_INSTRUCTIONS_PER_SECOND,
            timer_hz: DEFAULT_TIMER_HZ,
            phase: 0,
            carry: 0,
        }
    }

    /// Register `x`.
    pub open spec fn v(self, x: usize) -> u8 {
        self.registers[x as int]
    }

    /// The machine with `value` in register `x`.
    pub open spec fn with_register(self, x: usize, value: u8) -> Machine {
        Machine { registers: self.registers.update(x as int, value), ..self }
    }

    /// The machine with `value` in register `x` and then the flag in VF: where
    /// `x` is VF itself, the flag is what stays.
    pub open spec fn with_flagged(self, x: usize, value: u8, flag: bool) -> Machine {
        Machine {
            registers: self.registers.update(x as int, value).update(
                FLAG_REGISTER as int,
                if flag {
                    1u8
                } else {
                    0u8
                },
            ),
            ..self
        }
    }

    /// Whether key `key` is pressed; a key that the pad does not have never is.
    pub open spec fn key_down(self, key: u8) -> bool {
        key < 16 && self.keypad[key as int]
    }

    /// Skips the next instruction where `condition` holds.
    pub open spec fn skip_if(self, condition: bool) -> Result<Machine, Error> {
        if !condition {
            Ok(self)
        } else if self.pc + 2 > MEMORY_SIZE {
            Err(Error::MemoryOutOfBounds)
        } else {
            Ok(Machine { pc: (self.pc + 2) as u16, ..self })
        }
    }

    /// Calls the subroutine at `address`.
    pub open spec fn called(self, address: u16) -> Result<Machine, Error> {
        if self.stack.len() >= STACK_CAPACITY {
            Err(Error::StackOverflow)
        } else {
            Ok(Machine { pc: address, stack: self.stack.push(self.pc), ..self })
        }
    }

    /// Returns from a subroutine.
    pub open spec fn returned(self) -> Result<Machine, Error> {
        if self.stack.len() == 0 {
            Err(Error::StackUnderflow)
        } else {
            Ok(Machine { pc: self.stack.last(), stack: self.stack.drop_last(), ..self })
        }
    }

    /// Jumps to `address` plus V0.
    pub open spec fn jumped_with_offset(self, address: u16) -> Result<Machine, Error> {
        if address + self.v(0) >= MEMORY_SIZE {
            Err(Error::MemoryOutOfBounds)
        } else {
            Ok(Machine { pc: (address + self.v(0)) as u16, ..self })
        }
    }

    /// Adds register `x` to the index register.
    pub open spec fn index_advanced(self, x: usize) -> Result<Machine, Error> {
        if self.index + self.v(x) > u16::MAX {
            Err(Error::MemoryOutOfBounds)
        } else {
            Ok(Machine { index: (self.index + self.v(x)) as u16, ..self })
        }
    }

    /// Writes the three decimal digits of register `x` at I, I+1 and I+2, the
    /// hundreds first.
    pub open spec fn decimal_stored(self, x: usize) -> Result<Machine, Error> {
        if self.index + 2 >= MEMORY_SIZE {
            Err(Error::MemoryOutOfBounds)
        } else {
            Ok(
                Machine {
                    memory: self.memory.update(self.index as int, self.v(x) / 100).update(
                        self.index + 1,
                        (self.v(x) / 10) % 10,
                    ).update(self.index + 2, self.v(x) % 10),
                    ..self
                },
            )
        }
    }

    /// Writes V0 to V`x` to memory from I on.
    pub open spec fn registers_stored(self, x: usize) -> Result<Machine, Error> {
        if self.index + x >= MEMORY_SIZE {
            Err(Error::MemoryOutOfBounds)
        } else {
            Ok(
                Machine {
                    memory: Seq::new(
                        MEMORY_SIZE as nat,
                        |a: int|
                            if self.index <= a <= self.index + x {
                                self.registers[a - self.index]
                            } else {
                                self.memory[a]
                            },
                    ),
                    ..self
                },
            )
        }
    }

    /// Reads V0 to V`x` from memory from I on.
    pub open spec fn registers_loaded(self, x: usize) -> Result<Machine, Error> {
        if self.index + x >= MEMORY_SIZE {
            Err(Error::MemoryOutOfBounds)
        } else {
            Ok(
                Machine {
                    registers: Seq::new(
                        16,
                        |r: int|
                            if r <= x {
                                self.memory[self.index + r]
                            } else {
                                self.registers[r]
                            },
                    ),
                    ..self
                },
            )
        }
    }

    /// The sprite of `height` rows that stands in memory at I.
    pub open spec fn sprite(self, height: u8) -> Seq<u8> {
        self.memory.subrange(self.index as int, self.index + height)
    }

    /// Draws the sprite of `height` rows at I with its top left corner at
    /// column V`x` mod 64 and row V`y` mod 32, and sets VF where a pixel was
    /// turned off.
    pub open spec fn sprite_drawn(self, x: usize, y: usize, height: u8) -> Result<Machine, Error> {
        if self.index + height > MEMORY_SIZE {
            Err(Error::MemoryOutOfBounds)
        } else {
            let x0 = self.v(x) % 64;
            let y0 = self.v(y) % 32;
            Ok(
                Machine {
                    display: drawn(self.display, self.sprite(height), x0 as int, y0 as int),
                    registers: self.registers.update(
                        FLAG_REGISTER as int,
                        if collides(self.display, self.sprite(height), x0 as int, y0 as int) {
                            1u8
                        } else {
                            0u8
                        },
                    ),
                    needs_redraw: true,
                    ..self
                },
            )
        }
    }

    /// Puts a random byte, masked by `mask`, in register `x`.
    pub open spec fn randomized(self, x: usize, mask: u8) -> Machine {
        Machine {
            registers: self.registers.update(x as int, random_byte(next_random(self.rng)) & mask),
            rng: next_random(self.rng),
            ..self
        }
    }

    /// What one operation does to the machine: the state that follows, or the
    /// fault, in which case nothing has changed. Only what is listed for an
    /// operation changes.
    pub open spec fn execute(self, op: Op) -> Result<Machine, Error> {
        if !op.wf() {
            Err(Error::InvalidOperand)
        } else {
            match op {
                Op::ClearScreen => Ok(Machine { display: blank(), needs_redraw: true, ..self }),
                Op::Return => self.returned(),
                Op::Jump(address) => Ok(Machine { pc: address, ..self }),
                Op::CallSubroutine(address) => self.called(address),
                Op::SkipEqual(x, nn) => self.skip_if(self.v(x) == nn),
                Op::SkipNotEqual(x, nn) => self.skip_if(self.v(x) != nn),
                Op::SkipRegisterEqual(x, y) => self.skip_if(self.v(x) == self.v(y)),
                Op::SetImmediate(x, nn) => Ok(self.with_register(x, nn)),
                Op::SetRegister(x, y) => Ok(self.with_register(x, self.v(y))),
                Op::Add(x, nn) => Ok(self.with_register(x, ((self.v(x) + nn) % 256) as u8)),
                Op::OrRegister(x, y) => Ok(self.with_register(x, self.v(x) | self.v(y))),
                Op::AndRegister(x, y) => Ok(self.with_register(x, self.v(x) & self.v(y))),
                Op::XorRegister(x, y) => Ok(self.with_register(x, self.v(x) ^ self.v(y))),
                Op::AddRegister(x, y) => Ok(
                    self.with_flagged(
                        x,
                        ((self.v(x) + self.v(y)) % 256) as u8,
                        self.v(x) + self.v(y) > 255,
                    ),
                ),
                Op::SubtractYFromX(x, y) => Ok(
                    self.with_flagged(
                        x,
                        ((self.v(x) - self.v(y)) % 256) as u8,
                        self.v(x) >= self.v(y),
                    ),
                ),
                Op::SubtractXFromY(x, y) => Ok(
                    self.with_flagged(
                        x,
                        ((self.v(y) - self.v(x)) % 256) as u8,
                        self.v(y) >= self.v(x),
                    ),
                ),
                Op::ShiftRight(x, y) => Ok(
                    self.with_flagged(x, self.v(y) / 2, self.v(y) % 2 == 1),
                ),
                Op::ShiftLeft(x, y) => Ok(
                    self.with_flagged(x, ((self.v(y) * 2) % 256) as u8, self.v(y) >= 128),
                ),
                Op::SetIndex(address) => Ok(Machine { index: address, ..self }),
                Op::JumpWithOffset(address) => self.jumped_with_offset(address),
                Op::Random(x, mask) => Ok(self.randomized(x, mask)),
                Op::Display(x, y, height) => self.sprite_drawn(x, y, height),
                Op::SkipIfPressed(x) => self.skip_if(self.key_down(self.v(x))),
                Op::SkipIfNotPressed(x) => self.skip_if(!self.key_down(self.v(x))),
                Op::SetRegisterDelayTimer(x) => Ok(self.with_register(x, self.delay)),
                Op::SetDelayTimer(x) => Ok(Machine { delay: self.v(x), ..self }),
                Op::SetSoundTimer(x) => Ok(Machine { sound: self.v(x), ..self }),
                Op::AddToIndex(x) => self.index_advanced(x),
                Op::GetKey(x) => Ok(Machine { awaiting_key: Some(x), ..self }),
                Op::FontCharacter(x) => Ok(Machine { index: glyph_address(self.v(x)), ..self }),
                Op::DecimalConversion(x) => self.decimal_stored(x),
                Op::Store(x) => self.registers_stored(x),
                Op::Load(x) => self.registers_loaded(x),
            }
        }
    }

    /// The instruction word at the program counter, the high byte first.
    pub open spec fn fetch(self) -> Result<u16, Error> {
        if self.pc + 2 > MEMORY_SIZE {
            Err(Error::MemoryOutOfBounds)
        } else {
            Ok((self.memory[self.pc as int] * 256 + self.memory[self.pc + 1]) as u16)
        }
    }

    /// One instruction: fetched at the program counter, decoded, and executed
    /// with the program counter already on the next instruction. A machine
    /// that waits for a key does nothing. On a fault nothing has changed.
    pub open spec fn step(self) -> Result<Machine, Error> {
        if self.awaiting_key is Some {
            Ok(self)
        } else {
            match self.fetch() {
                Err(e) => Err(e),
                Ok(word) => match decode_spec(word) {
                    Err(e) => Err(e),
                    Ok(op) => Machine { pc: (self.pc + 2) as u16, ..self }.execute(op),
                },
            }
        }
    }

    /// The machine after `ticks` timer ticks.
    pub open spec fn ticked(self, ticks: nat) -> Machine {
        Machine { delay: ticked(self.delay, ticks), sound: ticked(self.sound, ticks), ..self }
    }

    /// The timer ticks that fall due when the time of one more instruction has
    /// gone by.
    pub open spec fn ticks_due(self) -> nat {
        ((self.phase + self.timer_hz) / (self.instructions_per_second as int)) as nat
    }

    /// The machine after the time of one instruction has gone by: the timers
    /// have received the ticks that fell due, and the rest of a tick is kept.
    pub open spec fn time_passed(self) -> Machine {
        Machine {
            phase: ((self.phase + self.timer_hz) % (self.instructions_per_second as int)) as u32,
            ..self.ticked(self.ticks_due())
        }
    }

    /// The machine after the time of `count` instructions has gone by and
    /// nothing else has happened.
    pub open spec fn idle(self, count: nat) -> Machine
        decreases count,
    {
        if count == 0 {
            self
        } else {
            self.idle((count - 1) as nat).time_passed()
        }
    }

    /// One turn of the run loop: one instruction, then the timers. On a fault
    /// nothing has changed, the timers included.
    pub open spec fn cycle(self) -> Result<Machine, Error> {
        match self.step() {
            Err(e) => Err(e),
            Ok(next) => Ok(next.time_passed()),
        }
    }

    /// The run loop: `cycles` turns, or as many as succeed. The result is the
    /// last state that was reached and the fault that stopped the loop, if one
    /// did.
    pub open spec fn run(self, cycles: nat) -> (Machine, Option<Error>)
        decreases cycles,
    {
        if cycles == 0 {
            (self, None)
        } else {
            match self.cycle() {
                Err(e) => (self, Some(e)),
                Ok(next) => next.run((cycles - 1) as nat),
            }
        }
    }

    /// The instructions that fall due when `elapsed_micros` microseconds have
    /// gone by.
    pub open spec fn cycles_due(self, elapsed_micros: nat) -> nat {
        ((self.carry + elapsed_micros * self.instructions_per_second) / (
        MICROS_PER_SECOND as int)) as nat
    }

    /// The machine after `elapsed_micros` microseconds have been counted: what
    /// does not make up a whole instruction is kept for the next time.
    pub open spec fn clock_advanced(self, elapsed_micros: nat) -> Machine {
        Machine {
            carry: ((self.carry + elapsed_micros * self.instructions_per_second) % (
            MICROS_PER_SECOND as int)) as u32,
            ..self
        }
    }

    /// The run loop at the configured speed: the turns that fall due in
    /// `elapsed_micros` microseconds.
    pub open spec fn run_for(self, elapsed_micros: nat) -> (Machine, Option<Error>) {
        self.clock_advanced(elapsed_micros).run(self.cycles_due(elapsed_micros))
    }

    /// The machine after the host has reported that `key` went down or up. A
    /// key that goes down while the machine waits for one is stored in the
    /// waiting register, and the machine goes on.
    pub open spec fn key_changed(self, key: usize, pressed: bool) -> Machine {
        let keypad = self.keypad.update(key as int, pressed);
        match self.awaiting_key {
            Some(x) if pressed && !self.keypad[key as int] => Machine {
                keypad,
                registers: self.registers.update(x as int, key as u8),
                awaiting_key: None,
                ..self
            },
            _ => Machine { keypad, ..self },
        }
    }
}

} // verus!
