use vstd::prelude::*;
use crate::chip8::Chip8;
use crate::error::Error;
use crate::model::Machine;

verus! {

impl Chip8 {
    /// Reports that `key` went down (`pressed`) or up. A key that goes down
    /// while the machine waits for one is stored in the waiting register, and
    /// the machine goes on with the next instruction. The pad has the keys 0
    /// to 15; any other is refused and nothing changes.
    pub fn set_key(&mut self, key: usize, pressed: bool) -> (outcome: Result<(), Error>)
        ensures
            match outcome {
                Ok(()) => key < 16 && final(self)@ == old(self)@.key_changed(key, pressed),
                Err(e) => key >= 16 && e == Error::InvalidOperand && final(self)@ == old(self)@,
            },
            final(self)@.wf(),
    {
        proof {
            use_type_invariant(&*self);
        }
        if key >= 16 {
            return Err(Error::InvalidOperand);
        }
        let went_down = pressed && !self.keypad[key];
        self.keypad[key] = pressed;
        if went_down {
            match self.awaiting_key {
                Some(x) => {
                    self.registers[x] = key as u8;
                    self.awaiting_key = None;
                },
                None => {},
            }
        }
        Ok(())
    }

    /// Sets how fast the machine runs: the instructions that make up one
    /// second and the timer ticks in one second. A rate of no instructions is
    /// refused and nothing changes; otherwise the next instruction and the
    /// next tick are a full period away.
    pub fn set_speed(&mut self, instructions_per_second: u32, timer_hz: u32) -> (accepted: bool)
        ensures
            accepted == (instructions_per_second >= 1),
            accepted ==> final(self)@ == (Machine {
                instructions_per_second,
                timer_hz,
                phase: 0,
                carry: 0,
                ..old(self)@
            }),
            !accepted ==> final(self)@ == old(self)@,
            final(self)@.wf(),
    {
        proof {
            use_type_invariant(&*self);
        }
        if instructions_per_second == 0 {
            return false;
        }
        self.phase = 0;
        self.carry = 0;
        self.instructions_per_second = instructions_per_second;
        self.timer_hz = timer_hz;
        true
    }

    /// Starts the random number generator anew from `seed`.
    pub fn seed(&mut self, seed: u32)
        ensures
            final(self)@ == (Machine { rng: seed, ..old(self)@ }),
            final(self)@.wf(),
    {
        proof {
            use_type_invariant(&*self);
        }
        self.rng = seed;
    }

    /// Tells that the host has painted the display: the redraw request is
    /// withdrawn until an instruction changes the display again.
    pub fn acknowledge_redraw(&mut self)
        ensures
            final(self)@ == (Machine { needs_redraw: false, ..old(self)@ }),
            final(self)@.wf(),
    {
        proof {
            use_type_invariant(&*self);
        }
        self.needs_redraw = false;
    }

    /// Whether the display has changed since the host last painted it.
    pub fn needs_redraw(&self) -> (needed: bool)
        ensures
            needed == self@.needs_redraw,
    {
        self.needs_redraw
    }

    /// Whether the tone sounds: it does while the sound timer is above zero.
    pub fn sound_on(&self) -> (on: bool)
        ensures
            on == (self@.sound > 0),
    {
        self.sound_timer.is_counting()
    }

    /// The register that waits for a key, while the machine is suspended.
    pub fn awaiting_key(&self) -> (waiting: Option<usize>)
        ensures
            waiting == self@.awaiting_key,
    {
        self.awaiting_key
    }

    /// The display: 64 by 32 pixels, row after row, `true` for a lit pixel.
    pub fn display(&self) -> (pixels: &[bool; 2048])
        ensures
            pixels@ == self@.display,
    {
        &self.display_buffer
    }

    /// The memory.
    pub fn memory(&self) -> (bytes: &[u8; 4096])
        ensures
            bytes@ == self@.memory,
    {
        &self.ram
    }

    /// The registers V0 to VF.
    pub fn registers(&self) -> (values: &[u8; 16])
        ensures
            values@ == self@.registers,
    {
        &self.registers
    }

    /// The keys as the host last reported them.
    pub fn keypad(&self) -> (keys: &[bool; 16])
        ensures
            keys@ == self@.keypad,
    {
        &self.keypad
    }

    /// The return addresses on the stack, the most recent last.
    pub fn stack(&self) -> (addresses: Vec<u16>)
        ensures
            addresses@ == self@.stack,
    {
        proof {
            use_type_invariant(self);
        }
        let mut addresses: Vec<u16> = Vec::new();
        let mut i: usize = 0;
        while i < self.stack_depth
            invariant
                i <= self.stack_depth <= 16,
                addresses@ == self.stack@.take(i as int),
            decreases self.stack_depth - i,
        {
            addresses.push(self.stack[i]);
            i = i + 1;
            assert(addresses@ =~= self.stack@.take(i as int));
        }
        addresses
    }

    /// The program counter.
    pub fn program_counter(&self) -> (pc: u16)
        ensures
            pc == self@.pc,
    {
        self.program_counter
    }

    /// The index register I.
    pub fn index_register(&self) -> (index: u16)
        ensures
            index == self@.index,
    {
        self.index_register
    }

    /// The delay timer.
    pub fn delay_timer(&self) -> (value: u8)
        ensures
            value == self@.delay,
    {
        self.delay_timer.get()
    }

    /// The sound timer.
    pub fn sound_timer(&self) -> (value: u8)
        ensures
            value == self@.sound,
    {
        self.sound_timer.get()
    }
}

} // verus!
