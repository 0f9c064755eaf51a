//! What each instruction, a fetch, a timer tick and a whole cycle do to the
//! machine.
//!
//! Every instruction reads its operands from the registers as they stand
//! before it. Where one writes both the flag register VF and Vx, VF is
//! written first: with `x` naming VF itself, the register holds the result
//! afterwards, not the flag.

use vstd::prelude::*;
use crate::chip8::Chip8Exception;
use crate::display::{draw_sprite, sprite_collides};
use crate::font::font_table;
use crate::instruction::{decode_spec, Instruction};
use crate::state::{wrap16, wrap8, MachineState, Outcome};

verus! {

/// A timer one tick later: one less, and never below zero.
pub open spec fn tick_down(timer: u8) -> u8 {
    if timer > 0 {
        (timer - 1) as u8
    } else {
        0
    }
}

/// Cycles that make one 60 Hz tick of the timers on a machine that runs `hz`
/// cycles a second: `hz / 60` rounded down, and one at the least.
pub open spec fn cycles_per_timer_tick(hz: int) -> int {
    if hz / 60 < 1 {
        1
    } else {
        hz / 60
    }
}

/// The lowest index from `from` on, below 16 and within `input`, at which
/// `input` reports a pressed key.
pub open spec fn first_pressed(input: Seq<bool>, from: int) -> Option<int>
    decreases 16 - from,
{
    if from < 0 || from >= 16 || from >= input.len() {
        None
    } else if input[from] {
        Some(from)
    } else {
        first_pressed(input, from + 1)
    }
}

impl MachineState {
    /// A machine at rest: memory, registers, stack, pad and framebuffer all
    /// zero, PC and I at zero, the font table expected at address zero, the
    /// timers ticking once in ten cycles, neither paused nor waiting.
    pub open spec fn initial() -> MachineState {
        MachineState {
            memory: Seq::new(4096, |a: int| 0u8),
            video_memory: Seq::new(2048, |p: int| false),
            stack: Seq::new(16, |k: int| 0int),
            v: Seq::new(16, |x: int| 0u8),
            keys: Seq::new(16, |k: int| false),
            i: 0,
            dt: 0,
            st: 0,
            pc: 0,
            sp: 0,
            timer_counter: 0,
            timer_divisor: 10,
            font_base_addr: 0,
            waiting_for_key: false,
            read_key_registry: 0,
            interrupted: false,
            rendered: false,
        }
    }

    /// The pause switch flipped.
    pub open spec fn interrupt(self) -> MachineState {
        MachineState { interrupted: !self.interrupted, ..self }
    }

    /// PC moved past the next instruction, as 16 bits hold it.
    pub open spec fn skip(self) -> MachineState {
        MachineState { pc: wrap16(self.pc + 2), ..self }
    }

    /// `self.skip()` if `taken`, else `self`.
    pub open spec fn skip_if(self, taken: bool) -> MachineState {
        if taken {
            self.skip()
        } else {
            self
        }
    }

    /// Whether the key whose index is `key` is pressed; the pad has no key
    /// past 0xF, so none of those is.
    pub open spec fn key_pressed(self, key: int) -> bool {
        0 <= key < 16 && self.keys[key]
    }

    /// CLS.
    pub open spec fn cls(self) -> MachineState {
        MachineState {
            video_memory: Seq::new(self.video_memory.len(), |p: int| false),
            rendered: true,
            ..self
        }
    }

    /// Pushing `value`: it goes on top of the stack, unless the stack is full.
    pub open spec fn stack_push(self, value: int) -> Outcome {
        if self.sp >= 16 {
            self.failed(Chip8Exception::StackOverflow)
        } else {
            MachineState {
                stack: self.stack.update(self.sp, value),
                sp: self.sp + 1,
                ..self
            }.done()
        }
    }

    /// The address on top of the stack, where there is one.
    pub open spec fn stack_top(self) -> Option<int> {
        if self.sp == 0 {
            None
        } else {
            Some(self.stack[self.sp - 1])
        }
    }

    /// Popping: the top of the stack is dropped, unless the stack is empty.
    pub open spec fn stack_pop(self) -> Outcome {
        if self.sp == 0 {
            self.failed(Chip8Exception::StackUnderflow)
        } else {
            MachineState { sp: self.sp - 1, ..self }.done()
        }
    }

    /// RET.
    pub open spec fn ret(self) -> Outcome {
        match self.stack_top() {
            None => self.failed(Chip8Exception::StackUnderflow),
            Some(addr) => MachineState { pc: addr, ..self.stack_pop().state }.done(),
        }
    }

    /// JP addr.
    pub open spec fn jp_addr(self, addr: int) -> MachineState {
        MachineState { pc: addr, ..self }
    }

    /// CALL addr.
    pub open spec fn call_addr(self, addr: int) -> Outcome {
        let pushed = self.stack_push(self.pc);
        if pushed.result is Err {
            pushed
        } else {
            MachineState { pc: addr, ..pushed.state }.done()
        }
    }

    /// SE Vx, byte.
    pub open spec fn se_vx_byte(self, x: int, byte: u8) -> MachineState {
        self.skip_if(self.v[x] == byte)
    }

    /// SNE Vx, byte.
    pub open spec fn sne_vx_byte(self, x: int, byte: u8) -> MachineState {
        self.skip_if(self.v[x] != byte)
    }

    /// SE Vx, Vy.
    pub open spec fn se_vx_vy(self, x: int, y: int) -> MachineState {
        self.skip_if(self.v[x] == self.v[y])
    }

    /// SNE Vx, Vy.
    pub open spec fn sne_vx_vy(self, x: int, y: int) -> MachineState {
        self.skip_if(self.v[x] != self.v[y])
    }

    /// Register `x` set to `value`.
    pub open spec fn with_reg(self, x: int, value: u8) -> MachineState {
        MachineState { v: self.v.update(x, value), ..self }
    }

    /// VF set to 1 if `flag`, else to 0, and then register `x` to `value`.
    pub open spec fn with_flag_and_reg(self, flag: bool, x: int, value: u8) -> MachineState {
        MachineState {
            v: self.v.update(15, if flag { 1u8 } else { 0u8 }).update(x, value),
            ..self
        }
    }

    /// LD Vx, byte.
    pub open spec fn ld_vx_byte(self, x: int, byte: u8) -> MachineState {
        self.with_reg(x, byte)
    }

    /// ADD Vx, byte: the sum modulo 256, and no flag.
    pub open spec fn add_vx_byte(self, x: int, byte: u8) -> MachineState {
        self.with_reg(x, wrap8(self.v[x] + byte))
    }

    /// LD Vx, Vy.
    pub open spec fn ld_vx_vy(self, x: int, y: int) -> MachineState {
        self.with_reg(x, self.v[y])
    }

    /// OR Vx, Vy.
    pub open spec fn or_vx_vy(self, x: int, y: int) -> MachineState {
        self.with_reg(x, self.v[x] | self.v[y])
    }

    /// AND Vx, Vy.
    pub open spec fn and_vx_vy(self, x: int, y: int) -> MachineState {
        self.with_reg(x, self.v[x] & self.v[y])
    }

    /// XOR Vx, Vy.
    pub open spec fn xor_vx_vy(self, x: int, y: int) -> MachineState {
        self.with_reg(x, self.v[x] ^ self.v[y])
    }

    /// ADD Vx, Vy: the sum modulo 256; VF tells whether the sum passed 255.
    pub open spec fn add_vx_vy(self, x: int, y: int) -> MachineState {
        self.with_flag_and_reg(self.v[x] + self.v[y] > 255, x, wrap8(self.v[x] + self.v[y]))
    }

    /// SUB Vx, Vy: the difference modulo 256; VF tells whether Vx was
    /// strictly the larger.
    pub open spec fn sub_vx_vy(self, x: int, y: int) -> MachineState {
        self.with_flag_and_reg(self.v[x] > self.v[y], x, wrap8(self.v[x] - self.v[y]))
    }

    /// SHR Vx: Vx halved; VF takes the lowest bit, the one shifted out.
    pub open spec fn shr_vx_vy(self, x: int, y: int) -> MachineState {
        self.with_flag_and_reg(self.v[x] % 2 == 1, x, (self.v[x] / 2) as u8)
    }

    /// SUBN Vx, Vy: Vy minus Vx modulo 256; VF tells whether Vy was
    /// strictly the larger.
    pub open spec fn subn_vx_vy(self, x: int, y: int) -> MachineState {
        self.with_flag_and_reg(self.v[y] > self.v[x], x, wrap8(self.v[y] - self.v[x]))
    }

    /// SHL Vx: Vx doubled modulo 256; VF takes the highest bit, the one
    /// shifted out.
    pub open spec fn shl_vx_vy(self, x: int, y: int) -> MachineState {
        self.with_flag_and_reg(self.v[x] >= 128, x, wrap8(self.v[x] * 2))
    }

    /// LD I, addr.
    pub open spec fn ld_i_addr(self, addr: int) -> MachineState {
        MachineState { i: addr, ..self }
    }

    /// JP V0, addr.
    pub open spec fn jp_v0_addr(self, addr: int) -> MachineState {
        MachineState { pc: addr + self.v[0], ..self }
    }

    /// RND Vx, byte, where `random` is the byte that was drawn.
    pub open spec fn rnd_vx_byte(self, x: int, byte: u8, random: u8) -> MachineState {
        self.with_reg(x, random & byte)
    }

    /// The `rows` bytes of memory from I on: the sprite that DRW draws.
    pub open spec fn sprite(self, rows: int) -> Seq<u8> {
        self.memory.subrange(self.i, self.i + rows)
    }

    /// DRW Vx, Vy, rows: the sprite at I is drawn with its top left corner at
    /// column Vx mod 64, row Vy mod 32, and VF tells whether a pixel was
    /// erased. A sprite that reaches past the end of memory is a fault.
    pub open spec fn drw_vx_vy_nibble(self, x: int, y: int, rows: int) -> Outcome {
        if self.i + rows > 4096 {
            self.failed(Chip8Exception::MemoryOverflow)
        } else {
            let x0 = self.v[x] as int % 64;
            let y0 = self.v[y] as int % 32;
            let sprite = self.sprite(rows);
            MachineState {
                video_memory: draw_sprite(self.video_memory, sprite, x0, y0),
                v: self.v.update(
                    15,
                    if sprite_collides(self.video_memory, sprite, x0, y0) {
                        1u8
                    } else {
                        0u8
                    },
                ),
                rendered: true,
                ..self
            }.done()
        }
    }

    /// SKP Vx.
    pub open spec fn skp_vx(self, x: int) -> MachineState {
        self.skip_if(self.key_pressed(self.v[x] as int))
    }

    /// SKNP Vx.
    pub open spec fn sknp_vx(self, x: int) -> MachineState {
        self.skip_if(!self.key_pressed(self.v[x] as int))
    }

    /// LD Vx, DT.
    pub open spec fn ld_vx_dt(self, x: int) -> MachineState {
        self.with_reg(x, self.dt)
    }

    /// LD Vx, K: the machine starts to wait for a key, which register `x`
    /// will take.
    pub open spec fn ld_vx_k(self, x: int) -> MachineState {
        MachineState { waiting_for_key: true, read_key_registry: x, ..self }
    }

    /// LD DT, Vx.
    pub open spec fn ld_dt_vx(self, x: int) -> MachineState {
        MachineState { dt: self.v[x], ..self }
    }

    /// LD ST, Vx.
    pub open spec fn ld_st_vx(self, x: int) -> MachineState {
        MachineState { st: self.v[x], ..self }
    }

    /// ADD I, Vx: the sum as 16 bits hold it.
    pub open spec fn add_i_vx(self, x: int) -> MachineState {
        MachineState { i: wrap16(self.i + self.v[x]), ..self }
    }

    /// LD F, Vx: I points at the five bytes of the glyph for the value of Vx.
    pub open spec fn ld_f_vx(self, x: int) -> MachineState {
        MachineState { i: self.font_base_addr + 5 * self.v[x], ..self }
    }

    /// LD B, Vx: the hundreds, tens and ones of the value of Vx go to I, I+1
    /// and I+2. A fault if those do not all lie in memory.
    pub open spec fn ld_b_vx(self, x: int) -> Outcome {
        if self.i + 2 >= 4096 {
            self.failed(Chip8Exception::MemoryOverflow)
        } else {
            let value = self.v[x];
            MachineState {
                memory: self.memory.update(self.i, value / 100).update(
                    self.i + 1,
                    (value / 10) % 10,
                ).update(self.i + 2, value % 10),
                ..self
            }.done()
        }
    }

    /// LD [I], Vx: V0 to Vx, Vx included, go to memory from I on. A fault if
    /// the last of them would fall outside memory.
    pub open spec fn ld_mem_i_vx(self, x: int) -> Outcome {
        if self.i + x >= 4096 {
            self.failed(Chip8Exception::MemoryOverflow)
        } else {
            MachineState {
                memory: Seq::new(
                    self.memory.len(),
                    |a: int|
                        if self.i <= a <= self.i + x {
                            self.v[a - self.i]
                        } else {
                            self.memory[a]
                        },
                ),
                ..self
            }.done()
        }
    }

    /// LD Vx, [I]: V0 to Vx, Vx included, are read from memory from I on. A
    /// fault if the last of them would be read outside memory.
    pub open spec fn ld_vx_mem_i(self, x: int) -> Outcome {
        if self.i + x >= 4096 {
            self.failed(Chip8Exception::MemoryOverflow)
        } else {
            MachineState {
                v: Seq::new(
                    self.v.len(),
                    |r: int|
                        if r <= x {
                            self.memory[self.i + r]
                        } else {
                            self.v[r]
                        },
                ),
                ..self
            }.done()
        }
    }

    /// What `instruction` does, `random` being the byte that RND draws; no
    /// other instruction looks at it. A fault leaves the machine as it was.
    pub open spec fn execute(self, instruction: Instruction, random: u8) -> Outcome {
        match instruction {
            Instruction::Cls => self.cls().done(),
            Instruction::Ret => self.ret(),
            Instruction::Sys { addr } => self.done(),
            Instruction::Jp { addr } => self.jp_addr(addr as int).done(),
            Instruction::Call { addr } => self.call_addr(addr as int),
            Instruction::SeByte { x, byte } => self.se_vx_byte(x as int, byte).done(),
            Instruction::SneByte { x, byte } => self.sne_vx_byte(x as int, byte).done(),
            Instruction::SeReg { x, y } => self.se_vx_vy(x as int, y as int).done(),
            Instruction::LdByte { x, byte } => self.ld_vx_byte(x as int, byte).done(),
            Instruction::AddByte { x, byte } => self.add_vx_byte(x as int, byte).done(),
            Instruction::LdReg { x, y } => self.ld_vx_vy(x as int, y as int).done(),
            Instruction::Or { x, y } => self.or_vx_vy(x as int, y as int).done(),
            Instruction::And { x, y } => self.and_vx_vy(x as int, y as int).done(),
            Instruction::Xor { x, y } => self.xor_vx_vy(x as int, y as int).done(),
            Instruction::AddReg { x, y } => self.add_vx_vy(x as int, y as int).done(),
            Instruction::Sub { x, y } => self.sub_vx_vy(x as int, y as int).done(),
            Instruction::Shr { x, y } => self.shr_vx_vy(x as int, y as int).done(),
            Instruction::Subn { x, y } => self.subn_vx_vy(x as int, y as int).done(),
            Instruction::Shl { x, y } => self.shl_vx_vy(x as int, y as int).done(),
            Instruction::SneReg { x, y } => self.sne_vx_vy(x as int, y as int).done(),
            Instruction::LdI { addr } => self.ld_i_addr(addr as int).done(),
            Instruction::JpV0 { addr } => self.jp_v0_addr(addr as int).done(),
            Instruction::Rnd { x, byte } => self.rnd_vx_byte(x as int, byte, random).done(),
            Instruction::Drw { x, y, rows } => self.drw_vx_vy_nibble(
                x as int,
                y as int,
                rows as int,
            ),
            Instruction::Skp { x } => self.skp_vx(x as int).done(),
            Instruction::Sknp { x } => self.sknp_vx(x as int).done(),
            Instruction::LdVxDt { x } => self.ld_vx_dt(x as int).done(),
            Instruction::LdVxK { x } => self.ld_vx_k(x as int).done(),
            Instruction::LdDtVx { x } => self.ld_dt_vx(x as int).done(),
            Instruction::LdStVx { x } => self.ld_st_vx(x as int).done(),
            Instruction::AddI { x } => self.add_i_vx(x as int).done(),
            Instruction::LdF { x } => self.ld_f_vx(x as int).done(),
            Instruction::LdB { x } => self.ld_b_vx(x as int),
            Instruction::StoreRegs { x } => self.ld_mem_i_vx(x as int),
            Instruction::LoadRegs { x } => self.ld_vx_mem_i(x as int),
        }
    }

    /// What the instruction that `op_code` stands for does; an opcode that
    /// stands for none is a fault.
    pub open spec fn decode_and_exec(self, op_code: u16, random: u8) -> Outcome {
        match decode_spec(op_code) {
            Some(instruction) => self.execute(instruction, random),
            None => self.failed(Chip8Exception::InvalidInstruction),
        }
    }

    /// Whether the two bytes of an opcode can be read at PC.
    pub open spec fn can_fetch(self) -> bool {
        self.pc + 1 < 4096
    }

    /// The opcode at PC: the byte at PC is its high half, the next its low.
    pub open spec fn op_code_at_pc(self) -> u16 {
        (self.memory[self.pc] * 256 + self.memory[self.pc + 1]) as u16
    }

    /// A fetch: PC moves past the opcode it points at, unless that opcode
    /// does not lie in memory.
    pub open spec fn fetch(self) -> Outcome {
        if self.can_fetch() {
            MachineState { pc: self.pc + 2, ..self }.done()
        } else {
            self.failed(Chip8Exception::MemoryOverflow)
        }
    }

    /// One step of the timer divider: the counter goes up by one; when it
    /// reaches the divisor it starts again from zero and both timers tick
    /// down.
    pub open spec fn update_timers(self) -> MachineState {
        if self.timer_counter + 1 >= self.timer_divisor {
            MachineState {
                dt: tick_down(self.dt),
                st: tick_down(self.st),
                timer_counter: 0,
                ..self
            }
        } else {
            MachineState { timer_counter: self.timer_counter + 1, ..self }
        }
    }

    /// The pad as `input` reports it: key `k` takes `input[k]` for each of
    /// the first sixteen entries there are. A machine that waits for a key
    /// stops waiting at the first pressed one, lowest index first, and the
    /// register it waits for takes that index.
    pub open spec fn read_input(self, input: Seq<bool>) -> MachineState {
        let keys = Seq::new(
            self.keys.len(),
            |k: int|
                if k < input.len() {
                    input[k]
                } else {
                    self.keys[k]
                },
        );
        match first_pressed(input, 0) {
            Some(key) if self.waiting_for_key => MachineState {
                keys,
                v: self.v.update(self.read_key_registry, key as u8),
                waiting_for_key: false,
                ..self
            },
            _ => MachineState { keys, ..self },
        }
    }

    /// Initialisation: memory is zeroed and takes the font table at the
    /// font's base address, and the framebuffer is cleared.
    pub open spec fn init(self) -> MachineState {
        MachineState {
            memory: Seq::new(
                4096,
                |a: int|
                    if self.font_base_addr <= a < self.font_base_addr + 80 {
                        font_table()[a - self.font_base_addr]
                    } else {
                        0u8
                    },
            ),
            video_memory: Seq::new(2048, |p: int| false),
            ..self
        }
    }

    /// `program` copied into memory from `addr` on; the rest of memory stays.
    pub open spec fn load_rom(self, addr: int, program: Seq<u8>) -> MachineState {
        MachineState {
            memory: Seq::new(
                self.memory.len(),
                |a: int|
                    if addr <= a < addr + program.len() {
                        program[a - addr]
                    } else {
                        self.memory[a]
                    },
            ),
            ..self
        }
    }

    /// The timer divider set for a machine that runs `hz` cycles a second:
    /// the divisor becomes [`cycles_per_timer_tick`] of `hz`, and the cycle
    /// counter starts again from zero if it has already reached that.
    pub open spec fn set_cycle_rate(self, hz: int) -> MachineState {
        let divisor = cycles_per_timer_tick(hz);
        MachineState {
            timer_divisor: divisor,
            timer_counter: if self.timer_counter < divisor {
                self.timer_counter
            } else {
                0
            },
            ..self
        }
    }

    /// The pixel in column `x` of row `y`.
    pub open spec fn pixel(self, x: int, y: int) -> bool {
        self.video_memory[64 * y + x]
    }

    /// Whether a cycle leaves the machine as it is: it does while the machine
    /// is interrupted, and while it waits for a key.
    pub open spec fn idle(self) -> bool {
        self.interrupted || self.waiting_for_key
    }

    /// The cycle of a machine that is not idle: it clears the
    /// display-changed flag, fetches, executes what it fetched and steps the
    /// timer divider. A fault ends the cycle where it occurs: after a failed
    /// fetch only the flag is cleared; after a failed instruction PC is past
    /// it, nothing else of it has happened and the timers have not moved.
    pub open spec fn step(self, random: u8) -> Outcome {
        let cleared = MachineState { rendered: false, ..self };
        let fetched = cleared.fetch();
        if fetched.result is Err {
            fetched
        } else {
            let executed = fetched.state.decode_and_exec(cleared.op_code_at_pc(), random);
            if executed.result is Err {
                executed
            } else {
                executed.state.update_timers().done()
            }
        }
    }

    /// One cycle: nothing for an idle machine, a step for any other.
    pub open spec fn cycle(self, random: u8) -> Outcome {
        if self.idle() {
            self.done()
        } else {
            self.step(random)
        }
    }

    /// One tick of the host loop: the pad is read, then a cycle runs.
    pub open spec fn tick(self, input: Seq<bool>, random: u8) -> Outcome {
        self.read_input(input).cycle(random)
    }
}

} // verus!
