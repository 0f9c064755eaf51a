//! Laws of the machine: what holds of every state, proved over the model.

use vstd::prelude::*;
use crate::chip8::Chip8Exception;
use crate::display::{draw_sprite, sprite_collides, sprite_covers, sprite_lights};
use crate::instruction::{decode_spec, lemma_decoded_is_wf, Instruction};
use crate::semantics::{first_pressed, tick_down};
use crate::state::{MachineState, Outcome};

verus! {

/// An instruction with operands of opcode width takes a well-formed machine
/// to a well-formed machine.
pub proof fn lemma_execute_keeps_wf(s: MachineState, instruction: Instruction, random: u8)
    requires
        s.wf(),
        instruction.wf(),
    ensures
        s.execute(instruction, random).state.wf(),
{
}

/// Reading the pad takes a well-formed machine to a well-formed machine.
pub proof fn lemma_read_input_keeps_wf(s: MachineState, input: Seq<bool>)
    requires
        s.wf(),
    ensures
        s.read_input(input).wf(),
{
    lemma_first_pressed(input, 0);
}

/// The invariant is kept: a cycle takes a well-formed machine to a
/// well-formed machine, fault or none, and so does a tick.
pub proof fn lemma_cycle_keeps_wf(s: MachineState, input: Seq<bool>, random: u8)
    requires
        s.wf(),
    ensures
        s.cycle(random).state.wf(),
        s.tick(input, random).state.wf(),
{
    lemma_step_keeps_wf(s, random);
    lemma_read_input_keeps_wf(s, input);
    lemma_step_keeps_wf(s.read_input(input), random);
}

/// A step takes a well-formed machine to a well-formed machine.
proof fn lemma_step_keeps_wf(s: MachineState, random: u8)
    requires
        s.wf(),
    ensures
        s.step(random).state.wf(),
{
    let cleared = MachineState { rendered: false, ..s };
    let fetched = cleared.fetch();
    assert(fetched.state.wf());
    if fetched.result is Ok {
        let op_code = cleared.op_code_at_pc();
        lemma_decoded_is_wf(op_code);
        match decode_spec(op_code) {
            Some(instruction) => {
                lemma_execute_keeps_wf(fetched.state, instruction, random);
            },
            None => {},
        }
        let executed = fetched.state.decode_and_exec(op_code, random);
        assert(executed.state.wf());
        if executed.result is Ok {
            assert(executed.state.update_timers().wf());
        }
    }
}

/// A fault undoes the instruction: where an instruction fails, the machine
/// is as it was before it.
pub proof fn lemma_fault_leaves_machine(s: MachineState, instruction: Instruction, random: u8)
    ensures
        s.execute(instruction, random).result is Err ==> s.execute(instruction, random).state == s,
{
}

/// The random byte matters to RND alone: any other instruction does the same
/// whatever byte is drawn.
pub proof fn lemma_random_matters_to_rnd_alone(
    s: MachineState,
    instruction: Instruction,
    first: u8,
    second: u8,
)
    requires
        !(instruction is Rnd),
    ensures
        s.execute(instruction, first) == s.execute(instruction, second),
{
}

/// ADD Vx, byte leaves in Vx the sum modulo 256 and changes no other
/// register, the flag register VF included.
pub proof fn lemma_add_byte_wraps(s: MachineState, x: int, byte: u8)
    requires
        s.wf(),
        0 <= x < 16,
    ensures
        s.add_vx_byte(x, byte).v[x] == (s.v[x] + byte) % 256,
        forall|r: int| 0 <= r < 16 && r != x ==> s.add_vx_byte(x, byte).v[r] == s.v[r],
        s.add_vx_byte(x, byte) == (MachineState { v: s.add_vx_byte(x, byte).v, ..s }),
        s.add_vx_byte(x, byte).wf(),
{
}

/// Drawing a sprite a second time at the same place undoes the first draw,
/// and the second draw reports a collision exactly if the first one lit a
/// pixel.
pub proof fn lemma_draw_twice_restores(video: Seq<bool>, sprite: Seq<u8>, x0: int, y0: int)
    ensures
        draw_sprite(draw_sprite(video, sprite, x0, y0), sprite, x0, y0) == video,
        sprite_collides(draw_sprite(video, sprite, x0, y0), sprite, x0, y0) <==> sprite_lights(
            video,
            sprite,
            x0,
            y0,
        ),
{
    let once = draw_sprite(video, sprite, x0, y0);
    assert(draw_sprite(once, sprite, x0, y0) =~= video);
    if sprite_collides(once, sprite, x0, y0) {
        let p = choose|p: int|
            0 <= p < once.len() && once[p] && #[trigger] sprite_covers(sprite, x0, y0, p);
        assert(!video[p] && sprite_covers(sprite, x0, y0, p));
    }
    if sprite_lights(video, sprite, x0, y0) {
        let p = choose|p: int|
            0 <= p < video.len() && !video[p] && #[trigger] sprite_covers(sprite, x0, y0, p);
        assert(once[p] && sprite_covers(sprite, x0, y0, p));
    }
}

/// DRW executed twice in a row, with registers other than VF for the
/// position, leaves the framebuffer as it was before the first; VF is then 1
/// exactly if the first draw lit a pixel.
pub proof fn lemma_drw_twice_restores(s: MachineState, x: int, y: int, rows: int)
    requires
        s.wf(),
        0 <= x < 15,
        0 <= y < 15,
        0 <= rows < 16,
        s.i + rows <= 4096,
    ensures
        ({
            let once = s.drw_vx_vy_nibble(x, y, rows);
            let twice = once.state.drw_vx_vy_nibble(x, y, rows);
            &&& once.result is Ok
            &&& twice.result is Ok
            &&& twice.state.video_memory == s.video_memory
            &&& twice.state.rendered
            &&& twice.state.v[15] == (if sprite_lights(
                s.video_memory,
                s.sprite(rows),
                s.v[x] as int % 64,
                s.v[y] as int % 32,
            ) {
                1u8
            } else {
                0u8
            })
        }),
{
    lemma_draw_twice_restores(
        s.video_memory,
        s.sprite(rows),
        s.v[x] as int % 64,
        s.v[y] as int % 32,
    );
}

/// What `first_pressed` finds: the pressed key of lowest index among the
/// first sixteen entries of `input`, or nothing if none of them is pressed.
pub proof fn lemma_first_pressed(input: Seq<bool>, from: int)
    requires
        0 <= from,
    ensures
        match first_pressed(input, from) {
            Some(key) => {
                &&& from <= key < 16
                &&& key < input.len()
                &&& input[key]
                &&& forall|j: int| from <= j < key ==> !input[j]
            },
            None => forall|j: int| from <= j < 16 && j < input.len() ==> !input[j],
        },
    decreases 16 - from,
{
    if from < 16 && from < input.len() && !input[from] {
        lemma_first_pressed(input, from + 1);
    }
}

/// The key wait. Once LD Vx, K has run, a cycle leaves the machine as it is.
/// A tick whose input reports no pressed key only takes over the pad: the
/// machine goes on waiting, PC and registers where they were. A tick whose
/// input reports a pressed key gives Vx the lowest index of such a key and
/// ends the wait; unless the machine is paused, the cycle of that same tick
/// is a step again.
pub proof fn lemma_key_wait(s: MachineState, x: int, input: Seq<bool>, random: u8)
    requires
        s.wf(),
        0 <= x < 16,
    ensures
        ({
            let waiting = s.ld_vx_k(x);
            let read = waiting.read_input(input);
            let ticked = waiting.tick(input, random);
            &&& waiting.wf()
            &&& waiting.cycle(random).result is Ok
            &&& waiting.cycle(random).state == waiting
            &&& first_pressed(input, 0) is None ==> {
                &&& ticked.result is Ok
                &&& ticked.state == (MachineState { keys: read.keys, ..waiting })
                &&& ticked.state.waiting_for_key
                &&& ticked.state.pc == s.pc
                &&& ticked.state.v == s.v
            }
            &&& first_pressed(input, 0) matches Some(key) ==> {
                &&& 0 <= key < 16
                &&& input[key]
                &&& forall|j: int| 0 <= j < key ==> !input[j]
                &&& read == (MachineState {
                    keys: read.keys,
                    v: s.v.update(x, key as u8),
                    waiting_for_key: false,
                    ..waiting
                })
                &&& read.v[x] == key
                &&& ticked == (if s.interrupted {
                    read.done()
                } else {
                    read.step(random)
                })
            }
        }),
{
    lemma_first_pressed(input, 0);
}

/// The machine after CALL to each of `addrs` in turn, or the first fault.
pub open spec fn after_calls(s: MachineState, addrs: Seq<int>) -> Outcome
    decreases addrs.len(),
{
    if addrs.len() == 0 {
        s.done()
    } else {
        let before = after_calls(s, addrs.drop_last());
        if before.result is Err {
            before
        } else {
            before.state.call_addr(addrs.last())
        }
    }
}

/// Nested calls succeed as long as the stack has room for them, each taking
/// one entry, and fail with `StackOverflow` as soon as it has not: from an
/// empty stack sixteen calls succeed and a seventeenth fails.
pub proof fn lemma_nested_calls(s: MachineState, addrs: Seq<int>)
    requires
        s.wf(),
        forall|k: int| 0 <= k < addrs.len() ==> 0 <= #[trigger] addrs[k] <= 0xFFF,
    ensures
        s.sp + addrs.len() <= 16 ==> {
            &&& after_calls(s, addrs).result is Ok
            &&& after_calls(s, addrs).state.sp == s.sp + addrs.len()
            &&& after_calls(s, addrs).state.wf()
        },
        s.sp + addrs.len() > 16 ==> after_calls(s, addrs).result == Err::<(), Chip8Exception>(
            Chip8Exception::StackOverflow,
        ),
    decreases addrs.len(),
{
    if addrs.len() > 0 {
        lemma_nested_calls(s, addrs.drop_last());
    }
}

/// The two ends of the stack: CALL on a full stack fails with
/// `StackOverflow`, RET on an empty one with `StackUnderflow`, and either
/// leaves the machine as it was.
pub proof fn lemma_stack_limits(s: MachineState, addr: int)
    requires
        s.wf(),
    ensures
        s.sp == 16 ==> s.call_addr(addr) == s.failed(Chip8Exception::StackOverflow),
        s.sp < 16 ==> s.call_addr(addr).result is Ok,
        s.sp == 0 ==> s.ret() == s.failed(Chip8Exception::StackUnderflow),
        s.sp > 0 ==> s.ret().result is Ok,
{
}

/// RET after CALL comes back: PC is the one from which the call was made and
/// the stack is as deep as before it.
pub proof fn lemma_call_then_ret(s: MachineState, addr: int)
    requires
        s.wf(),
        s.sp < 16,
    ensures
        s.call_addr(addr).state.pc == addr,
        s.call_addr(addr).state.ret().result is Ok,
        s.call_addr(addr).state.ret().state.pc == s.pc,
        s.call_addr(addr).state.ret().state.sp == s.sp,
{
}

/// The machine after `steps` steps of the timer divider.
pub open spec fn after_timer_steps(s: MachineState, steps: nat) -> MachineState
    decreases steps,
{
    if steps == 0 {
        s
    } else {
        after_timer_steps(s, (steps - 1) as nat).update_timers()
    }
}

/// A timer after `ticks` ticks: that many less, and never below zero.
pub open spec fn timer_after(timer: u8, ticks: int) -> int {
    if timer - ticks > 0 {
        timer - ticks
    } else {
        0
    }
}

/// One more on `a` either raises its remainder by `n` by one, or, from the
/// highest remainder, starts it again from zero and raises the quotient.
proof fn lemma_div_mod_succ(a: int, n: int)
    requires
        0 <= a,
        1 <= n,
    ensures
        0 <= a % n < n,
        0 <= a / n,
        a % n + 1 < n ==> (a + 1) % n == a % n + 1 && (a + 1) / n == a / n,
        a % n + 1 >= n ==> (a + 1) % n == 0 && (a + 1) / n == a / n + 1,
{
    let q = a / n;
    let r = a % n;
    vstd::arithmetic::div_mod::lemma_fundamental_div_mod(a, n);
    vstd::arithmetic::div_mod::lemma_mod_bound(a, n);
    vstd::arithmetic::div_mod::lemma_div_pos_is_pos(a, n);
    if r + 1 < n {
        assert(a + 1 == q * n + (r + 1)) by (nonlinear_arith)
            requires
                a == n * q + r,
        ;
        vstd::arithmetic::div_mod::lemma_fundamental_div_mod_converse(a + 1, n, q, r + 1);
    } else {
        assert(a + 1 == (q + 1) * n + 0) by (nonlinear_arith)
            requires
                a == n * q + r,
                r + 1 == n,
        ;
        vstd::arithmetic::div_mod::lemma_fundamental_div_mod_converse(a + 1, n, q + 1, 0);
    }
}

/// The timers after any number of cycles: a tick falls on every cycle at
/// which the cycle counter reaches the divisor, so after `steps` steps each
/// timer has lost one for every whole divisor in the counter plus `steps`,
/// and stands at zero if it had fewer to lose. Nothing but the two timers
/// and the counter has changed.
pub proof fn lemma_timer_steps(s: MachineState, steps: nat)
    requires
        s.wf(),
    ensures
        ({
            let after = after_timer_steps(s, steps);
            let ticks = (s.timer_counter + steps) / s.timer_divisor;
            &&& after.timer_counter == (s.timer_counter + steps) % s.timer_divisor
            &&& after.dt == timer_after(s.dt, ticks)
            &&& after.st == timer_after(s.st, ticks)
            &&& after == (MachineState {
                dt: after.dt,
                st: after.st,
                timer_counter: after.timer_counter,
                ..s
            })
            &&& after.wf()
        }),
    decreases steps,
{
    if steps == 0 {
        vstd::arithmetic::div_mod::lemma_fundamental_div_mod_converse(
            s.timer_counter,
            s.timer_divisor,
            0,
            s.timer_counter,
        );
    } else {
        lemma_timer_steps(s, (steps - 1) as nat);
        lemma_div_mod_succ(s.timer_counter + steps - 1, s.timer_divisor);
    }
}

/// With a divisor of N cycles for a tick, N cycles take exactly one from
/// each timer that is above zero and leave one at zero there, wherever in
/// its count the divider starts; the divider is then where it started.
pub proof fn lemma_timer_period(s: MachineState)
    requires
        s.wf(),
    ensures
        after_timer_steps(s, s.timer_divisor as nat).dt == tick_down(s.dt),
        after_timer_steps(s, s.timer_divisor as nat).st == tick_down(s.st),
        after_timer_steps(s, s.timer_divisor as nat).timer_counter == s.timer_counter,
{
    let n = s.timer_divisor;
    let c = s.timer_counter;
    lemma_timer_steps(s, n as nat);
    vstd::arithmetic::div_mod::lemma_fundamental_div_mod_converse(c + n, n, 1, c);
}

} // verus!
