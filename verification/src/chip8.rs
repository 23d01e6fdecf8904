use vstd::prelude::*;
use crate::error::Error;
use crate::font::{FONT, FONT_START};
use crate::model::{
    Machine, DEFAULT_INSTRUCTIONS_PER_SECOND, DEFAULT_TIMER_HZ, MAX_ROM_SIZE, PROGRAM_START,
};
use crate::timer::Timer;

verus! {

/// The machine: memory, registers, stack, timers, display and keypad, and
/// what the run loop keeps between two instructions.
#[derive(Debug, PartialEq, Eq)]
pub struct Chip8 {
    pub(crate) ram: [u8; 4096],
    pub(crate) registers: [u8; 16],
    pub(crate) display_buffer: [bool; 2048],
    pub(crate) delay_timer: Timer,
    pub(crate) sound_timer: Timer,
    pub(crate) program_counter: u16,
    pub(crate) stack: [u16; 16],
    pub(crate) stack_depth: usize,
    pub(crate) index_register: u16,
    pub(crate) keypad: [bool; 16],
    pub(crate) awaiting_key: Option<usize>,
    pub(crate) needs_redraw: bool,
    pub(crate) rng: u32,
    pub(crate) instructions_per_second: u32,
    pub(crate) timer_hz: u32,
    pub(crate) phase: u32,
    pub(crate) carry: u32,
}

impl Chip8 {
    /// What holds of every machine between two calls.
    #[verifier::type_invariant]
    pub open(crate) spec fn inv(&self) -> bool {
        &&& self.stack_depth <= 16
        &&& forall|i: int| 0 <= i < self.stack_depth ==> self.stack@[i] <= 4096
        &&& forall|i: int| self.stack_depth <= i < 16 ==> self.stack@[i] == 0
        &&& self.program_counter <= 4096
        &&& (self.awaiting_key matches Some(x) ==> x < 16)
        &&& self.instructions_per_second >= 1
        &&& self.phase < self.instructions_per_second
        &&& self.carry < 1_000_000
    }

    /// The machine as a mathematical value.
    pub open(crate) spec fn view(&self) -> Machine {
        Machine {
            memory: self.ram@,
            registers: self.registers@,
            index: self.index_register,
            pc: self.program_counter,
            stack: self.stack@.take(self.stack_depth as int),
            delay: self.delay_timer@,
            sound: self.sound_timer@,
            display: self.display_buffer@,
            keypad: self.keypad@,
            awaiting_key: self.awaiting_key,
            needs_redraw: self.needs_redraw,
            rng: self.rng,
            instructions_per_second: self.instructions_per_second,
            timer_hz: self.timer_hz,
            phase: self.phase,
            carry: self.carry,
        }
    }

    /// Loads a program: the bytes of `rom`, instruction words with the high
    /// byte first, go to memory from 0x200 on. Fails where the program does
    /// not fit.
    pub fn load(rom: &[u8]) -> (loaded: Result<Chip8, Error>)
        ensures
            match loaded {
                Ok(chip8) => rom@.len() <= MAX_ROM_SIZE && chip8@ == Machine::boot(rom@)
                    && chip8@.wf(),
                Err(e) => rom@.len() > MAX_ROM_SIZE && e == Error::RomTooLarge,
            },
    {
        if rom.len() > MAX_ROM_SIZE {
            return Err(Error::RomTooLarge);
        }
        let mut ram = [0u8;4096];
        let mut i: usize = 0;
        while i < 80
            invariant
                i <= 80,
                forall|a: int|
                    0 <= a < 4096 ==> ram@[a] == if FONT_START <= a < FONT_START + i {
                        FONT@[a - FONT_START]
                    } else {
                        0u8
                    },
            decreases 80 - i,
        {
            ram[FONT_START as usize + i] = FONT[i];
            i = i + 1;
        }
        let mut i: usize = 0;
        while i < rom.len()
            invariant
                i <= rom@.len() <= MAX_ROM_SIZE,
                forall|a: int|
                    0 <= a < 4096 ==> ram@[a] == if FONT_START <= a < FONT_START + 80 {
                        FONT@[a - FONT_START]
                    } else if PROGRAM_START <= a < PROGRAM_START + i {
                        rom@[a - PROGRAM_START]
                    } else {
                        0u8
                    },
            decreases rom@.len() - i,
        {
            ram[PROGRAM_START as usize + i] = rom[i];
            i = i + 1;
        }
        let chip8 = Chip8 {
            ram,
            registers: [0u8;16],
            display_buffer: [false;2048],
            delay_timer: Timer::new(),
            sound_timer: Timer::new(),
            program_counter: PROGRAM_START,
            stack: [0u16;16],
            stack_depth: 0,
            index_register: 0,
            keypad: [false;16],
            awaiting_key: None,
            needs_redraw: false,
            rng: 0,
            instructions_per_second: DEFAULT_INSTRUCTIONS_PER_SECOND,
            timer_hz: DEFAULT_TIMER_HZ,
            phase: 0,
            carry: 0,
        };
        proof {
            let booted = Machine::boot(rom@);
            assert(chip8@.memory =~= booted.memory);
            assert(chip8@.registers =~= booted.registers);
            assert(chip8@.stack =~= booted.stack);
            assert(chip8@.display =~= booted.display);
            assert(chip8@.keypad =~= booted.keypad);
        }
        Ok(chip8)
    }
}

impl Clone for Chip8 {
    /// A second machine in the same state.
    fn clone(&self) -> (copy: Chip8)
        ensures
            copy@ == self@,
    {
        proof {
            use_type_invariant(self);
        }
        Chip8 {
            ram: self.ram,
            registers: self.registers,
            display_buffer: self.display_buffer,
            delay_timer: self.delay_timer,
            sound_timer: self.sound_timer,
            program_counter: self.program_counter,
            stack: self.stack,
            stack_depth: self.stack_depth,
            index_register: self.index_register,
            keypad: self.keypad,
            awaiting_key: self.awaiting_key,
            needs_redraw: self.needs_redraw,
            rng: self.rng,
            instructions_per_second: self.instructions_per_second,
            timer_hz: self.timer_hz,
            phase: self.phase,
            carry: self.carry,
        }
    }
}

} // verus!
