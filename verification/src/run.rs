use vstd::prelude::*;
use vstd::arithmetic::div_mod::lemma_mod_bound;
use crate::chip8::Chip8;
use crate::error::Error;
use crate::exec::agrees;
use crate::laws::{lemma_timers_do_not_drift, lemma_waiting_passes_time};
use crate::model::Machine;
use crate::op::decode;

verus! {

proof fn lemma_high_byte(high: u8)
    by (bit_vector)
    ensures
        (high as u16) << 8u16 == high * 256,
{
}

impl Chip8 {
    /// Reads the instruction word at the program counter, the high byte first.
    fn fetch(&self) -> (fetched: Result<u16, Error>)
        ensures
            fetched == self@.fetch(),
    {
        let pc = self.program_counter as usize;
        if pc + 2 > 4096 {
            return Err(Error::MemoryOutOfBounds);
        }
        proof {
            lemma_high_byte(self.ram[pc as int]);
        }
        Ok(((self.ram[pc] as u16) << 8u16) + self.ram[pc + 1] as u16)
    }

    /// Lets the time of one instruction go by: the timers receive the ticks
    /// that have fallen due.
    fn pass_time(&mut self)
        ensures
            final(self)@ == old(self)@.time_passed(),
    {
        proof {
            use_type_invariant(&*self);
        }
        let elapsed = self.phase as u64 + self.timer_hz as u64;
        let period = self.instructions_per_second as u64;
        let due = elapsed / period;
        proof {
            lemma_mod_bound(elapsed as int, period as int);
        }
        self.phase = (elapsed % period) as u32;
        self.delay_timer.tick_by(due);
        self.sound_timer.tick_by(due);
    }

    /// Lets the time of `count` instructions go by at once.
    fn idle(&mut self, count: u64)
        ensures
            final(self)@ == old(self)@.idle(count as nat),
    {
        proof {
            use_type_invariant(&*self);
            lemma_timers_do_not_drift(self@, count as nat);
            assert(count * self.timer_hz <= 0xFFFF_FFFF_FFFF_FFFF * 0xFFFF_FFFF)
                by (nonlinear_arith)
                requires
                    count <= 0xFFFF_FFFF_FFFF_FFFF,
                    self.timer_hz <= 0xFFFF_FFFF,
            ;
        }
        let elapsed: u128 = self.phase as u128 + count as u128 * self.timer_hz as u128;
        let period = self.instructions_per_second as u128;
        let due = elapsed / period;
        proof {
            lemma_mod_bound(elapsed as int, period as int);
        }
        self.phase = (elapsed % period) as u32;
        let ticks: u64 = if due > 255 {
            255
        } else {
            due as u64
        };
        self.delay_timer.tick_by(ticks);
        self.sound_timer.tick_by(ticks);
    }

    /// One tick of both timers: each goes down by one unless it stands at zero.
    pub fn tick_timers(&mut self)
        ensures
            final(self)@ == old(self)@.ticked(1),
            final(self)@.wf(),
    {
        proof {
            use_type_invariant(&*self);
        }
        self.delay_timer.tick();
        self.sound_timer.tick();
    }

    /// Fetches, decodes and executes one instruction. While the machine waits
    /// for a key this does nothing. On a fault the machine is as it was.
    pub fn step(&mut self) -> (outcome: Result<(), Error>)
        ensures
            match outcome {
                Ok(()) => old(self)@.step() == Ok::<Machine, Error>(final(self)@),
                Err(e) => old(self)@.step() == Err::<Machine, Error>(e) && final(self)@ == old(
                    self,
                )@,
            },
            final(self)@.wf(),
    {
        proof {
            use_type_invariant(&*self);
        }
        if self.awaiting_key.is_some() {
            return Ok(());
        }
        let word = match self.fetch() {
            Ok(word) => word,
            Err(e) => {
                return Err(e);
            },
        };
        let op = match decode(word) {
            Ok(op) => op,
            Err(e) => {
                return Err(e);
            },
        };
        let here = self.program_counter;
        self.program_counter = here + 2;
        match op.execute(self) {
            Ok(()) => Ok(()),
            Err(e) => {
                proof {
                    use_type_invariant(&*self);
                }
                self.program_counter = here;
                Err(e)
            },
        }
    }

    /// What is left of a run once the machine waits for a key: time goes by
    /// and nothing else happens.
    fn wait(&mut self, cycles: u64)
        requires
            old(self)@.awaiting_key is Some,
        ensures
            old(self)@.run(cycles as nat) == (final(self)@, None::<Error>),
    {
        proof {
            lemma_waiting_passes_time(self@, cycles as nat);
        }
        self.idle(cycles);
    }

    /// One turn of the run loop: one instruction, then the timers. On a fault
    /// the machine is as it was.
    fn cycle(&mut self) -> (outcome: Result<(), Error>)
        ensures
            agrees(old(self)@.cycle(), old(self)@, final(self)@, outcome),
    {
        match self.step() {
            Ok(()) => {
                self.pass_time();
                Ok(())
            },
            Err(e) => Err(e),
        }
    }

    /// The run loop: up to `cycles` turns, each one instruction and then the
    /// timer ticks that have fallen due. It stops at the first fault and
    /// returns it; the machine is then in the last state that was reached.
    /// While the machine waits for a key the turns only let time go by, and
    /// the loop does them all at once.
    pub fn run(&mut self, cycles: u64) -> (outcome: Result<(), Error>)
        ensures
            final(self)@ == old(self)@.run(cycles as nat).0,
            outcome == match old(self)@.run(cycles as nat).1 {
                None => Ok::<(), Error>(()),
                Some(e) => Err::<(), Error>(e),
            },
            final(self)@.wf(),
    {
        proof {
            use_type_invariant(&*self);
        }
        let mut done: u64 = 0;
        while done < cycles
            invariant
                done <= cycles,
                self@.run((cycles - done) as nat) == old(self)@.run(cycles as nat),
                self@.wf(),
            decreases cycles - done,
        {
            let ghost before = self@;
            let ghost left = (cycles - done) as nat;
            if self.awaiting_key.is_some() {
                self.wait(cycles - done);
                proof {
                    use_type_invariant(&*self);
                }
                return Ok(());
            }
            assert(before.run(left) == match before.cycle() {
                Err(e) => (before, Some(e)),
                Ok(next) => next.run((left - 1) as nat),
            });
            match self.cycle() {
                Ok(()) => {},
                Err(e) => {
                    return Err(e);
                },
            }
            done = done + 1;
            proof {
                use_type_invariant(&*self);
            }
        }
        Ok(())
    }

    /// The run loop at the configured speed: makes the turns that fall due
    /// when `elapsed_micros` microseconds have gone by since the last call.
    /// What does not make up a whole instruction is kept for the next call,
    /// so that the calls together make as many turns as the time in all asks
    /// for. It stops at the first fault, as `run` does.
    pub fn run_for(&mut self, elapsed_micros: u32) -> (outcome: Result<(), Error>)
        ensures
            final(self)@ == old(self)@.run_for(elapsed_micros as nat).0,
            outcome == match old(self)@.run_for(elapsed_micros as nat).1 {
                None => Ok::<(), Error>(()),
                Some(e) => Err::<(), Error>(e),
            },
            final(self)@.wf(),
    {
        proof {
            use_type_invariant(&*self);
            assert(elapsed_micros * self.instructions_per_second <= 0xFFFF_FFFF * 0xFFFF_FFFF)
                by (nonlinear_arith)
                requires
                    elapsed_micros <= 0xFFFF_FFFF,
                    self.instructions_per_second <= 0xFFFF_FFFF,
            ;
        }
        let gone: u128 = self.carry as u128 + elapsed_micros as u128
            * self.instructions_per_second as u128;
        let cycles = (gone / 1_000_000) as u64;
        self.carry = (gone % 1_000_000) as u32;
        self.run(cycles)
    }
}

} // verus!
