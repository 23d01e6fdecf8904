use vstd::prelude::*;

verus! {

/// What a countdown that stands at `value` shows after `ticks` ticks: each
/// tick takes one off until zero is reached, and zero stays.
pub open spec fn ticked(value: u8, ticks: nat) -> u8 {
    if ticks >= value {
        0
    } else {
        (value - ticks) as u8
    }
}

/// A countdown timer: idle at zero, counting at 1..=255.
#[derive(Clone, Copy, Debug, PartialEq, Eq)]
pub struct Timer(u8);

impl Timer {
    /// The value the timer shows.
    pub closed spec fn view(&self) -> u8 {
        self.0
    }

    /// An idle timer.
    pub fn new() -> (timer: Timer)
        ensures
            timer@ == 0,
    {
        Timer(0)
    }

    /// Starts the countdown at `value`; zero leaves the timer idle.
    pub fn set(&mut self, value: u8)
        ensures
            final(self)@ == value,
        no_unwind
    {
        self.0 = value;
    }

    /// The value the timer shows.
    pub fn get(&self) -> (value: u8)
        ensures
            value == self@,
    {
        self.0
    }

    /// Tells whether the timer is counting, that is, not yet at zero.
    pub fn is_counting(&self) -> (counting: bool)
        ensures
            counting == (self@ > 0),
    {
        self.0 > 0
    }

    /// One tick.
    pub fn tick(&mut self)
        ensures
            final(self)@ == ticked(old(self)@, 1),
        no_unwind
    {
        if self.0 > 0 {
            self.0 = self.0 - 1;
        }
    }

    /// As many ticks as `ticks` says, at once.
    pub fn tick_by(&mut self, ticks: u64)
        ensures
            final(self)@ == ticked(old(self)@, ticks as nat),
        no_unwind
    {
        if ticks >= self.0 as u64 {
            self.0 = 0;
        } else {
            self.0 = self.0 - ticks as u8;
        }
    }
}

/// Ticks add up: `a` ticks and then `b` ticks are `a + b` ticks.
pub proof fn lemma_ticks_add_up(value: u8, a: nat, b: nat)
    ensures
        ticked(ticked(value, a), b) == ticked(value, a + b),
{
}

/// A timer never shows more than it did, and after as many ticks as it showed
/// it stands at zero and stays there.
pub proof fn lemma_ticks_run_down(value: u8, ticks: nat)
    ensures
        ticked(value, ticks) <= value,
        ticks >= value ==> ticked(value, ticks) == 0,
        ticks < value ==> ticked(value, ticks) == value - ticks,
        ticked(0, ticks) == 0,
{
}

} // verus!
