use vstd::prelude::*;
use vstd::arithmetic::div_mod::{
    lemma_fundamental_div_mod, lemma_hoist_over_denominator, lemma_mod_bound,
    lemma_mod_multiples_vanish,
};
use crate::display::{collides, drawn, sprite_covers};
use crate::error::Error;
use crate::model::{next_random, random_byte, Machine};
use crate::op::{decode_spec, Op};

verus! {

/// Every instruction word either decodes to an operation whose operands fit
/// their fields, or is unrecognized. There is no third outcome.
pub proof fn lemma_decode_is_total(word: u16)
    ensures
        match decode_spec(word) {
            Ok(op) => op.wf(),
            Err(e) => e == Error::UnrecognizedInstruction,
        },
{
}

/// An operation leaves the machine in a state that it can be in.
pub proof fn lemma_execute_keeps_wf(s: Machine, op: Op)
    requires
        s.wf(),
    ensures
        s.execute(op) matches Ok(t) ==> t.wf(),
{
}

/// A step leaves the machine in a state that it can be in.
pub proof fn lemma_step_keeps_wf(s: Machine)
    requires
        s.wf(),
    ensures
        s.step() matches Ok(t) ==> t.wf(),
{
    if s.awaiting_key is None && s.fetch() is Ok {
        let word = s.fetch()->Ok_0;
        lemma_decode_is_total(word);
        if decode_spec(word) is Ok {
            lemma_execute_keeps_wf(
                Machine { pc: (s.pc + 2) as u16, ..s },
                decode_spec(word)->Ok_0,
            );
        }
    }
}

/// After `SetImmediate(x, nn)` register `x` holds `nn`, and nothing else has
/// changed.
pub proof fn lemma_set_then_read(s: Machine, x: usize, nn: u8)
    requires
        s.wf(),
        x < 16,
    ensures
        s.execute(Op::SetImmediate(x, nn)) matches Ok(t) && t.v(x) == nn && t == (Machine {
            registers: t.registers,
            ..s
        }) && forall|r: usize| r < 16 && r != x ==> t.v(r) == s.v(r),
{
}

/// `Add(x, nn)` adds modulo 256 and touches no other register: there is no
/// carry flag.
pub proof fn lemma_add_wraps(s: Machine, x: usize, nn: u8)
    requires
        s.wf(),
        x < 16,
    ensures
        s.execute(Op::Add(x, nn)) matches Ok(t) && t.v(x) == (s.v(x) + nn) % 256 && t == (Machine {
            registers: t.registers,
            ..s
        }) && forall|r: usize| r < 16 && r != x ==> t.v(r) == s.v(r),
{
}

/// `AddRegister(x, y)` sets VF to 1 if the sum of the two registers exceeds
/// 255 and to 0 if it does not; register `x`, unless it is VF, holds the sum
/// modulo 256.
pub proof fn lemma_add_register_carries(s: Machine, x: usize, y: usize)
    requires
        s.wf(),
        x < 16,
        y < 16,
    ensures
        s.execute(Op::AddRegister(x, y)) matches Ok(t) && (t.v(0xF) == 1 <==> s.v(x) + s.v(y)
            > 255) && (t.v(0xF) == 0 <==> s.v(x) + s.v(y) <= 255) && (x != 0xF ==> t.v(x) == (s.v(
            x,
        ) + s.v(y)) % 256),
{
}

/// The two subtractions set VF to 1 if nothing is borrowed and to 0 if
/// something is; register `x`, unless it is VF, holds the difference modulo 256.
pub proof fn lemma_subtract_borrows(s: Machine, x: usize, y: usize)
    requires
        s.wf(),
        x < 16,
        y < 16,
    ensures
        s.execute(Op::SubtractYFromX(x, y)) matches Ok(t) && (t.v(0xF) == 1 <==> s.v(x) >= s.v(y))
            && (t.v(0xF) == 0 <==> s.v(x) < s.v(y)) && (x != 0xF ==> t.v(x) == (s.v(x) - s.v(y))
            % 256),
        s.execute(Op::SubtractXFromY(x, y)) matches Ok(t) && (t.v(0xF) == 1 <==> s.v(y) >= s.v(x))
            && (t.v(0xF) == 0 <==> s.v(y) < s.v(x)) && (x != 0xF ==> t.v(x) == (s.v(y) - s.v(x))
            % 256),
{
}

/// After `ClearScreen` every pixel is off, and clearing once more changes
/// nothing.
pub proof fn lemma_clear_screen(s: Machine)
    requires
        s.wf(),
    ensures
        s.execute(Op::ClearScreen) matches Ok(t) && (forall|cell: int|
            0 <= cell < 2048 ==> !t.display[cell]) && t.execute(Op::ClearScreen) == Ok::<
            Machine,
            Error,
        >(t),
{
}

/// A call succeeds exactly where fewer than sixteen return addresses are on
/// the stack, and puts one more there; otherwise it is a stack overflow. A
/// return succeeds exactly where the stack is not empty; otherwise it is a
/// stack underflow.
pub proof fn lemma_stack_limits(s: Machine, address: u16)
    requires
        s.wf(),
        address <= 0xFFF,
    ensures
        s.stack.len() < 16 ==> (s.execute(Op::CallSubroutine(address)) matches Ok(t)
            && t.stack.len() == s.stack.len() + 1 && t.pc == address),
        s.stack.len() >= 16 ==> s.execute(Op::CallSubroutine(address)) == Err::<Machine, Error>(
            Error::StackOverflow,
        ),
        s.stack.len() > 0 ==> (s.execute(Op::Return) matches Ok(t) && t.stack.len()
            == s.stack.len() - 1),
        s.stack.len() == 0 ==> s.execute(Op::Return) == Err::<Machine, Error>(
            Error::StackUnderflow,
        ),
{
}

/// A call followed by a return brings back the program counter, the stack and
/// all the rest: the machine is as it was before the call.
pub proof fn lemma_call_then_return(s: Machine, address: u16)
    requires
        s.wf(),
        address <= 0xFFF,
    ensures
        s.execute(Op::CallSubroutine(address)) matches Ok(t) ==> t.execute(Op::Return) == Ok::<
            Machine,
            Error,
        >(s),
{
    if s.execute(Op::CallSubroutine(address)) is Ok {
        let t = s.execute(Op::CallSubroutine(address))->Ok_0;
        assert(t.stack.drop_last() =~= s.stack);
    }
}

/// The machine after `count` calls of the subroutine at `address`, one inside
/// the other.
pub open spec fn nested_calls(s: Machine, address: u16, count: nat) -> Result<Machine, Error>
    decreases count,
{
    if count == 0 {
        Ok(s)
    } else {
        match nested_calls(s, address, (count - 1) as nat) {
            Ok(t) => t.execute(Op::CallSubroutine(address)),
            Err(e) => Err(e),
        }
    }
}

/// Calls nest as deep as the stack has room: from a stack with `depth`
/// addresses, `count` nested calls succeed if `depth + count` is at most
/// sixteen, and end in a stack overflow if it is more.
pub proof fn lemma_calls_nest_to_the_limit(s: Machine, address: u16, count: nat)
    requires
        s.wf(),
        address <= 0xFFF,
    ensures
        s.stack.len() + count <= 16 ==> (nested_calls(s, address, count) matches Ok(t) && t.wf()
            && t.stack.len() == s.stack.len() + count),
        s.stack.len() + count > 16 ==> nested_calls(s, address, count) == Err::<Machine, Error>(
            Error::StackOverflow,
        ),
    decreases count,
{
    if count > 0 {
        lemma_calls_nest_to_the_limit(s, address, (count - 1) as nat);
        if s.stack.len() + count <= 16 {
            let t = nested_calls(s, address, (count - 1) as nat)->Ok_0;
            lemma_stack_limits(t, address);
            lemma_execute_keeps_wf(t, Op::CallSubroutine(address));
        } else if s.stack.len() + count == 17 {
            let t = nested_calls(s, address, (count - 1) as nat)->Ok_0;
            lemma_stack_limits(t, address);
        }
    }
}

/// `DecimalConversion(x)` succeeds exactly where the three bytes from I on are
/// in memory. It writes three decimal digits there that spell the value of
/// register `x`, and no other byte of memory changes.
pub proof fn lemma_decimal_digits(s: Machine, x: usize)
    requires
        s.wf(),
        x < 16,
    ensures
        s.execute(Op::DecimalConversion(x)) is Ok <==> s.index + 2 < 4096,
        s.execute(Op::DecimalConversion(x)) matches Ok(t) ==> ({
            &&& t.memory[s.index as int] <= 9
            &&& t.memory[s.index + 1] <= 9
            &&& t.memory[s.index + 2] <= 9
            &&& 100 * t.memory[s.index as int] + 10 * t.memory[s.index + 1] + t.memory[s.index
                + 2] == s.v(x)
            &&& forall|a: int|
                0 <= a < 4096 && !(s.index <= a <= s.index + 2) ==> t.memory[a] == s.memory[a]
        }),
{
}

/// `Store(x)` and `Load(x)` succeed exactly where the bytes from I to I + `x`
/// are in memory. After `Store(x)` those bytes hold V0 to V`x`, and `Load(x)`
/// then changes nothing: it reads back what the registers hold.
pub proof fn lemma_store_then_load(s: Machine, x: usize)
    requires
        s.wf(),
        x < 16,
    ensures
        s.execute(Op::Store(x)) is Ok <==> s.index + x < 4096,
        s.execute(Op::Load(x)) is Ok <==> s.index + x < 4096,
        s.execute(Op::Store(x)) matches Ok(t) ==> ({
            &&& forall|r: int| 0 <= r <= x ==> t.memory[s.index + r] == s.registers[r]
            &&& t.registers == s.registers
            &&& t.execute(Op::Load(x)) == Ok::<Machine, Error>(t)
        }),
{
    if s.execute(Op::Store(x)) is Ok {
        let t = s.execute(Op::Store(x))->Ok_0;
        let u = t.execute(Op::Load(x))->Ok_0;
        assert(u.registers =~= t.registers);
    }
}

/// Whether the sprite of `height` rows at I, drawn at the place that V`x` and
/// V`y` name, lights a pixel: whether it has a pixel on a cell that is off.
pub open spec fn lights_a_pixel(s: Machine, x: usize, y: usize, height: u8) -> bool {
    exists|cell: int|
        0 <= cell < 2048 && !s.display[cell] && #[trigger] sprite_covers(
            s.sprite(height),
            (s.v(x) % 64) as int,
            (s.v(y) % 32) as int,
            cell,
        )
}

/// Drawing a sprite a second time at the same place undoes the first drawing:
/// the display is as it was. The second drawing reports a collision exactly
/// where the first one lit a pixel. The place is the same unless VF names the
/// column or the row and the first drawing changed it.
pub proof fn lemma_draw_twice(s: Machine, x: usize, y: usize, height: u8)
    requires
        s.wf(),
        x < 16,
        y < 16,
        height < 16,
    ensures
        s.execute(Op::Display(x, y, height)) is Ok <==> s.index + height <= 4096,
        s.execute(Op::Display(x, y, height)) matches Ok(t) ==> (t.v(x) % 64 == s.v(x) % 64 && t.v(
            y,
        ) % 32 == s.v(y) % 32 ==> (t.execute(Op::Display(x, y, height)) matches Ok(u) && u.display
            == s.display && u.v(0xF) == (if lights_a_pixel(s, x, y, height) {
            1u8
        } else {
            0u8
        }))),
        x != 0xF && y != 0xF ==> (s.execute(Op::Display(x, y, height)) matches Ok(t) ==> t.v(x)
            == s.v(x) && t.v(y) == s.v(y)),
{
    let op = Op::Display(x, y, height);
    if s.execute(op) is Ok {
        let t = s.execute(op)->Ok_0;
        if t.v(x) % 64 == s.v(x) % 64 && t.v(y) % 32 == s.v(y) % 32 {
            let u = t.execute(op)->Ok_0;
            let sprite = s.sprite(height);
            let x0 = (s.v(x) % 64) as int;
            let y0 = (s.v(y) % 32) as int;
            assert(t.sprite(height) == sprite);
            assert(t.display == drawn(s.display, sprite, x0, y0));
            assert(u.display == drawn(t.display, sprite, x0, y0));
            assert(u.display =~= s.display);
            if collides(t.display, sprite, x0, y0) {
                let cell = choose|cell: int|
                    0 <= cell < 2048 && t.display[cell] && #[trigger] sprite_covers(
                        sprite,
                        x0,
                        y0,
                        cell,
                    );
                assert(!s.display[cell] && sprite_covers(sprite, x0, y0, cell));
            }
            if lights_a_pixel(s, x, y, height) {
                let cell = choose|cell: int|
                    0 <= cell < 2048 && !s.display[cell] && #[trigger] sprite_covers(
                        sprite,
                        x0,
                        y0,
                        cell,
                    );
                assert(t.display[cell] && sprite_covers(sprite, x0, y0, cell));
            }
        }
    }
}

/// `GetKey(x)` suspends the machine: a step does nothing, and neither does a
/// key that goes up or that is held down. The first key that goes down ends
/// the wait and is stored in register `x`.
pub proof fn lemma_key_ends_the_wait(s: Machine, x: usize, key: usize)
    requires
        s.wf(),
        x < 16,
        key < 16,
    ensures
        s.execute(Op::GetKey(x)) matches Ok(t) && t.awaiting_key == Some(x) && t.step() == Ok::<
            Machine,
            Error,
        >(t) && t.key_changed(key, false).awaiting_key == Some(x) && (s.keypad[key as int]
            ==> t.key_changed(key, true) == t) && (!s.keypad[key as int] ==> ({
            let u = t.key_changed(key, true);
            u.awaiting_key is None && u.v(x) == key && u.keypad[key as int] && u.wf()
        })),
{
    let t = s.execute(Op::GetKey(x))->Ok_0;
    assert(s.keypad[key as int] ==> t.keypad.update(key as int, true) =~= t.keypad);
}

/// A byte under a mask has no bit outside the mask.
proof fn lemma_masked(byte: u8, mask: u8)
    by (bit_vector)
    ensures
        (byte & mask) & !mask == 0,
        byte & mask <= mask,
        byte & 0xFF == byte,
        byte & 0x00 == 0,
{
}

/// The generator never stands still.
proof fn lemma_generator_moves(state: u32)
    by (bit_vector)
    ensures
        (state * 1664525 + 1013904223) % 0x1_0000_0000 != state,
{
}

/// `Random(x, mask)` puts a byte in register `x` that has no bit outside the
/// mask, and moves the generator on: with the mask 0xFF the byte is the top
/// byte of the generator's new state, with the mask 0 it is zero.
pub proof fn lemma_random_is_masked(s: Machine, x: usize, mask: u8)
    requires
        s.wf(),
        x < 16,
    ensures
        s.execute(Op::Random(x, mask)) matches Ok(t) && t.v(x) & !mask == 0 && t.v(x) <= mask
            && t.rng == next_random(s.rng) && t.rng != s.rng && (mask == 0xFF ==> t.v(x)
            == random_byte(t.rng)) && (mask == 0 ==> t.v(x) == 0),
{
    lemma_masked(random_byte(next_random(s.rng)), mask);
    lemma_generator_moves(s.rng);
}

/// Timer ticks add up, and a timer that has reached zero stays there: after
/// `ticks` ticks a timer that stood at `d` stands at `d - ticks`, or at zero
/// if that would be less.
pub proof fn lemma_timers_run_down(s: Machine, a: nat, b: nat)
    requires
        s.wf(),
    ensures
        s.ticked(a).ticked(b) == s.ticked(a + b),
        s.ticked(0) == s,
        s.ticked(a).delay == if a >= s.delay {
            0
        } else {
            s.delay - a
        },
        s.ticked(a).sound == if a >= s.sound {
            0
        } else {
            s.sound - a
        },
        s.ticked(a).wf(),
{
}

/// The time of one instruction leaves the machine in a state that it can be in.
pub proof fn lemma_time_keeps_wf(s: Machine)
    requires
        s.wf(),
    ensures
        s.time_passed().wf(),
{
    lemma_mod_bound(s.phase + s.timer_hz, s.instructions_per_second as int);
}

/// What is counted in units of which `period` make a whole can be added in
/// two parts or at once: the wholes and the rest are the same.
proof fn lemma_accumulate(carried: int, a: int, b: int, period: int)
    requires
        period > 0,
        carried >= 0,
        a >= 0,
        b >= 0,
    ensures
        (carried + a) / period + ((carried + a) % period + b) / period == (carried + a + b)
            / period,
        ((carried + a) % period + b) % period == (carried + a + b) % period,
        0 <= (carried + a) % period < period,
        0 <= (carried + a) / period,
{
    let whole = (carried + a) / period;
    let part = (carried + a) % period;
    lemma_fundamental_div_mod(carried + a, period);
    lemma_mod_bound(carried + a, period);
    assert(period * whole == whole * period) by (nonlinear_arith);
    lemma_hoist_over_denominator(part + b, whole, period as nat);
    lemma_mod_multiples_vanish(whole, part + b, period);
    assert(whole >= 0) by (nonlinear_arith)
        requires
            carried + a >= 0,
            period > 0,
            whole == (carried + a) / period,
    ;
}

/// The timers do not drift. After the time of `count` instructions they have
/// received as many ticks as there are whole ticks in that time, counted from
/// the part of a tick that had gone by before, and the rest is kept for the
/// next tick: no fraction of a tick is ever lost.
pub proof fn lemma_timers_do_not_drift(s: Machine, count: nat)
    requires
        s.wf(),
    ensures
        s.idle(count) == (Machine {
            phase: ((s.phase + count * s.timer_hz) % (s.instructions_per_second as int)) as u32,
            ..s.ticked(((s.phase + count * s.timer_hz) / (s.instructions_per_second as int)) as nat)
        }),
        s.idle(count).wf(),
    decreases count,
{
    let period = s.instructions_per_second as int;
    if count == 0 {
        let phase = s.phase as int;
        assert(phase % period == phase && phase / period == 0) by (nonlinear_arith)
            requires
                0 <= phase < period,
        ;
    } else {
        let earlier = (count - 1) as nat;
        lemma_timers_do_not_drift(s, earlier);
        let gone = (earlier * s.timer_hz) as int;
        let all = (count * s.timer_hz) as int;
        assert(all == gone + s.timer_hz && gone >= 0) by (nonlinear_arith)
            requires
                gone == earlier * s.timer_hz,
                all == count * s.timer_hz,
                count == earlier + 1,
        ;
        lemma_accumulate(s.phase as int, gone, s.timer_hz as int, period);
        let before = s.idle(earlier);
        let after = before.time_passed();
        assert(s.idle(count) == after);
        let ticks_before = (s.phase + gone) / period;
        let ticks_now = (before.phase + s.timer_hz) / period;
        assert(before.phase == (s.phase + gone) % period);
        assert(before.ticks_due() == ticks_now);
        assert(ticks_before + ticks_now == (s.phase + all) / period);
        assert(after.phase == (s.phase + all) % period);
        assert(before.delay == crate::timer::ticked(s.delay, ticks_before as nat));
        assert(after.delay == crate::timer::ticked(s.delay, (ticks_before + ticks_now) as nat));
        assert(after.sound == crate::timer::ticked(s.sound, (ticks_before + ticks_now) as nat));
    }
}

/// The run loop does not drift against the clock. Time that is counted in two
/// parts gives as many instructions as the same time counted at once, and
/// leaves the same fraction of an instruction for later.
pub proof fn lemma_clock_does_not_drift(s: Machine, a: nat, b: nat)
    requires
        s.wf(),
    ensures
        s.cycles_due(a) + s.clock_advanced(a).cycles_due(b) == s.cycles_due(a + b),
        s.clock_advanced(a).clock_advanced(b) == s.clock_advanced(a + b),
        s.clock_advanced(a).wf(),
{
    let rate = s.instructions_per_second as int;
    let first = a * rate;
    let second = b * rate;
    assert((a + b) * rate == first + second && first >= 0 && second >= 0) by (nonlinear_arith)
        requires
            first == a * rate,
            second == b * rate,
            rate >= 0,
    ;
    lemma_accumulate(s.carry as int, first, second, 1_000_000);
    lemma_accumulate(s.carry as int, first + second, 0, 1_000_000);
}

/// A run leaves the machine in a state that it can be in.
pub proof fn lemma_run_keeps_wf(s: Machine, cycles: nat)
    requires
        s.wf(),
    ensures
        s.run(cycles).0.wf(),
    decreases cycles,
{
    if cycles > 0 && s.cycle() is Ok {
        lemma_step_keeps_wf(s);
        lemma_time_keeps_wf(s.step()->Ok_0);
        lemma_run_keeps_wf(s.cycle()->Ok_0, (cycles - 1) as nat);
    }
}

/// A run that ends in a fault has stopped in front of the instruction that
/// fails: the state it returns is the one in which the next turn gives that
/// fault. A run that ends without one has made every turn.
pub proof fn lemma_run_stops_at_the_fault(s: Machine, cycles: nat)
    ensures
        s.run(cycles).1 matches Some(e) ==> s.run(cycles).0.cycle() == Err::<Machine, Error>(e),
    decreases cycles,
{
    if cycles > 0 && s.cycle() is Ok {
        lemma_run_stops_at_the_fault(s.cycle()->Ok_0, (cycles - 1) as nat);
    }
}

/// A run can be made in two parts: `a + b` turns are `a` turns and then, if
/// no fault stopped them, `b` more.
pub proof fn lemma_run_in_parts(s: Machine, a: nat, b: nat)
    ensures
        s.run(a + b) == if s.run(a).1 is Some {
            s.run(a)
        } else {
            s.run(a).0.run(b)
        },
    decreases a,
{
    if a > 0 && s.cycle() is Ok {
        lemma_run_in_parts(s.cycle()->Ok_0, (a - 1) as nat, b);
    }
}

/// While the machine waits for a key no instruction runs and no fault occurs,
/// and time goes by as ever: the timers keep counting down.
pub proof fn lemma_waiting_passes_time(s: Machine, cycles: nat)
    requires
        s.awaiting_key is Some,
    ensures
        s.run(cycles) == (s.idle(cycles), None::<Error>),
    decreases cycles,
{
    if cycles > 0 {
        lemma_waiting_passes_time(s.time_passed(), (cycles - 1) as nat);
        lemma_idle_from_the_front(s, (cycles - 1) as nat);
    }
}

/// Idle time can be counted from the front as well as from the back.
proof fn lemma_idle_from_the_front(s: Machine, count: nat)
    ensures
        s.time_passed().idle(count) == s.idle(count + 1),
    decreases count,
{
    if count > 0 {
        lemma_idle_from_the_front(s, (count - 1) as nat);
        let next = s.time_passed();
        assert(next.idle(count) == next.idle((count - 1) as nat).time_passed());
    } else {
        assert(s.idle(1) == s.idle(0).time_passed());
    }
}

} // verus!
