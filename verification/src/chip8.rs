//! The executable machine: the state a host owns and the operations that
//! drive it, each proved against the model.

use vstd::prelude::*;
use crate::display::{
    collides_before, covered_before, lemma_draw_end, lemma_draw_row_end, lemma_draw_start,
    lemma_draw_step,
};
use crate::font::{font_glyphs, font_table};
use crate::instruction::{decode, Instruction};
use crate::random::random_byte;
use crate::semantics::first_pressed;
use crate::state::MachineState;

verus! {

/// A CHIP-8 machine.
pub struct Chip8 {
    /// The 4096 bytes of memory.
    pub memory: [u8; 4096],
    /// The framebuffer, 64 pixels a row, 32 rows, row after row; `true` is a
    /// lit pixel.
    pub video_memory: [bool; 2048],
    /// The return addresses; those in use lie below `sp`.
    pub stack: [usize; 16],
    /// The registers V0 to VF.
    pub v: [u8; 16],
    /// The keys of the pad, `true` while pressed.
    pub keys: [bool; 16],
    /// The index register I.
    pub i: usize,
    /// The delay timer.
    pub dt: u8,
    /// The sound timer; the buzzer sounds while it is above zero.
    pub st: u8,
    /// The program counter.
    pub pc: usize,
    /// How many return addresses the stack holds.
    pub sp: usize,
    /// Cycles counted since the timers last ticked.
    pub timer_counter: usize,
    /// Cycles that make one tick of the timers.
    pub timer_divisor: usize,
    /// Where in memory the font table lies.
    pub font_base_addr: usize,
    /// Whether the machine waits for a key press.
    pub waiting_for_key: bool,
    /// The register that takes the key the machine waits for.
    pub read_key_registry: usize,
    /// Whether the host has paused the machine.
    pub interrupted: bool,
    /// Whether the framebuffer changed in the last cycle.
    pub rendered: bool,
}

/// The faults that end a cycle.
#[derive(Debug, Clone, Copy, PartialEq, Eq)]
pub enum Chip8Exception {
    /// A call with all sixteen stack entries in use.
    StackOverflow,
    /// A return with no stack entry in use.
    StackUnderflow,
    /// A read or write past the last byte of memory.
    MemoryOverflow,
    /// An opcode that stands for no instruction.
    InvalidInstruction,
}

impl View for Chip8 {
    type V = MachineState;

    open spec fn view(&self) -> MachineState {
        MachineState {
            memory: self.memory@,
            video_memory: self.video_memory@,
            stack: self.stack@.map_values(|a: usize| a as int),
            v: self.v@,
            keys: self.keys@,
            i: self.i as int,
            dt: self.dt,
            st: self.st,
            pc: self.pc as int,
            sp: self.sp as int,
            timer_counter: self.timer_counter as int,
            timer_divisor: self.timer_divisor as int,
            font_base_addr: self.font_base_addr as int,
            waiting_for_key: self.waiting_for_key,
            read_key_registry: self.read_key_registry as int,
            interrupted: self.interrupted,
            rendered: self.rendered,
        }
    }
}

impl Default for Chip8 {
    /// A machine at rest: see [`MachineState::initial`].
    fn default() -> (machine: Self)
        ensures
            machine@ == MachineState::initial(),
            machine.wf(),
    {
        Self {
            memory: [0; 4096],
            video_memory: [false; 2048],
            stack: [0; 16],
            v: [0; 16],
            keys: [false; 16],
            i: 0,
            dt: 0,
            st: 0,
            pc: 0,
            sp: 0,
            timer_counter: 0,
            timer_divisor: 10,
            font_base_addr: 0,
            waiting_for_key: false,
            read_key_registry: 0,
            interrupted: false,
            rendered: false,
        }
    }
}

impl Chip8 {
    /// The machine's invariant, which `new` establishes and every operation
    /// keeps: see [`MachineState::wf`].
    pub open spec fn wf(&self) -> bool {
        self@.wf()
    }

    /// Whether the invariant holds. A host that writes the public fields
    /// itself can ask before it hands the machine back to the operations
    /// that require it.
    pub fn is_well_formed(&self) -> (ok: bool)
        ensures
            ok == self.wf(),
    {
        if !(self.i <= 0xFFFF && self.pc <= 0xFFFF && self.sp <= 16 && 1 <= self.timer_divisor
            && self.timer_counter < self.timer_divisor && self.font_base_addr <= 4016
            && self.read_key_registry < 16) {
            return false;
        }
        let mut k: usize = 0;
        while k < self.sp
            invariant
                k <= self.sp <= 16,
                forall|j: int| 0 <= j < k ==> 0 <= #[trigger] self@.stack[j] <= 0xFFFF,
            decreases self.sp - k,
        {
            if self.stack[k] > 0xFFFF {
                assert(!(self@.stack[k as int] <= 0xFFFF));
                return false;
            }
            k = k + 1;
        }
        true
    }

    /// A machine at rest: see [`MachineState::initial`].
    pub fn new() -> (machine: Self)
        ensures
            machine@ == MachineState::initial(),
            machine.wf(),
    {
        Chip8::default()
    }

    /// Pauses a running machine and resumes a paused one.
    pub fn interrupt(&mut self)
        ensures
            final(self)@ == old(self)@.interrupt(),
            old(self).wf() ==> final(self).wf(),
    {
        self.interrupted = !self.interrupted;
    }

    /// Sets the program counter.
    pub fn set_pc(&mut self, pc: usize)
        requires
            pc <= 0xFFFF,
        ensures
            final(self)@ == old(self)@.jp_addr(pc as int),
            old(self).wf() ==> final(self).wf(),
    {
        self.pc = pc;
    }

    /// Moves the program counter past the next instruction.
    fn skip_next(&mut self)
        requires
            old(self).wf(),
        ensures
            final(self)@ == old(self)@.skip(),
            final(self).wf(),
    {
        self.pc = (self.pc + 2) % 0x10000;
    }

    /// SYS addr: a call into the host of the first machines; it does nothing.
    pub fn sys_addr(&mut self, addr: usize) -> (res: Result<(), Chip8Exception>)
        ensures
            res is Ok,
            *final(self) == *old(self),
    {
        Ok(())
    }

    /// JP addr: PC becomes `addr`.
    pub fn jp_addr(&mut self, addr: usize) -> (res: Result<(), Chip8Exception>)
        requires
            old(self).wf(),
            addr <= 0xFFF,
        ensures
            res is Ok,
            final(self)@ == old(self)@.jp_addr(addr as int),
            final(self).wf(),
    {
        self.pc = addr;
        Ok(())
    }

    /// SE Vx, byte: skips the next instruction if Vx equals `byte`.
    pub fn se_vx_byte(&mut self, vx: usize, byte: u8) -> (res: Result<(), Chip8Exception>)
        requires
            old(self).wf(),
            vx < 16,
        ensures
            res is Ok,
            final(self)@ == old(self)@.se_vx_byte(vx as int, byte),
            final(self).wf(),
    {
        if self.v[vx] == byte {
            self.skip_next();
        }
        Ok(())
    }

    /// SNE Vx, byte: skips the next instruction if Vx differs from `byte`.
    pub fn sne_vx_byte(&mut self, vx: usize, byte: u8) -> (res: Result<(), Chip8Exception>)
        requires
            old(self).wf(),
            vx < 16,
        ensures
            res is Ok,
            final(self)@ == old(self)@.sne_vx_byte(vx as int, byte),
            final(self).wf(),
    {
        if self.v[vx] != byte {
            self.skip_next();
        }
        Ok(())
    }

    /// SE Vx, Vy: skips the next instruction if Vx equals Vy.
    pub fn se_vx_vy(&mut self, vx: usize, vy: usize) -> (res: Result<(), Chip8Exception>)
        requires
            old(self).wf(),
            vx < 16,
            vy < 16,
        ensures
            res is Ok,
            final(self)@ == old(self)@.se_vx_vy(vx as int, vy as int),
            final(self).wf(),
    {
        if self.v[vx] == self.v[vy] {
            self.skip_next();
        }
        Ok(())
    }

    /// SNE Vx, Vy: skips the next instruction if Vx differs from Vy.
    pub fn sne_vx_vy(&mut self, vx: usize, vy: usize) -> (res: Result<(), Chip8Exception>)
        requires
            old(self).wf(),
            vx < 16,
            vy < 16,
        ensures
            res is Ok,
            final(self)@ == old(self)@.sne_vx_vy(vx as int, vy as int),
            final(self).wf(),
    {
        if self.v[vx] != self.v[vy] {
            self.skip_next();
        }
        Ok(())
    }

    /// LD Vx, byte: Vx becomes `byte`.
    pub fn ld_vx_byte(&mut self, vx: usize, byte: u8) -> (res: Result<(), Chip8Exception>)
        requires
            old(self).wf(),
            vx < 16,
        ensures
            res is Ok,
            final(self)@ == old(self)@.ld_vx_byte(vx as int, byte),
            final(self).wf(),
    {
        self.v[vx] = byte;
        Ok(())
    }

    /// ADD Vx, byte: Vx becomes Vx plus `byte` modulo 256; no flag is set.
    pub fn add_vx_byte(&mut self, vx: usize, byte: u8) -> (res: Result<(), Chip8Exception>)
        requires
            old(self).wf(),
            vx < 16,
        ensures
            res is Ok,
            final(self)@ == old(self)@.add_vx_byte(vx as int, byte),
            final(self).wf(),
    {
        let value: u8 = self.v[vx].wrapping_add(byte);
        self.v[vx] = value;
        Ok(())
    }

    /// LD Vx, Vy: Vx becomes Vy.
    pub fn ld_vx_vy(&mut self, vx: usize, vy: usize) -> (res: Result<(), Chip8Exception>)
        requires
            old(self).wf(),
            vx < 16,
            vy < 16,
        ensures
            res is Ok,
            final(self)@ == old(self)@.ld_vx_vy(vx as int, vy as int),
            final(self).wf(),
    {
        let value: u8 = self.v[vy];
        self.v[vx] = value;
        Ok(())
    }

    /// OR Vx, Vy: Vx becomes the bitwise or of Vx and Vy.
    pub fn or_vx_vy(&mut self, vx: usize, vy: usize) -> (res: Result<(), Chip8Exception>)
        requires
            old(self).wf(),
            vx < 16,
            vy < 16,
        ensures
            res is Ok,
            final(self)@ == old(self)@.or_vx_vy(vx as int, vy as int),
            final(self).wf(),
    {
        let value: u8 = self.v[vx] | self.v[vy];
        self.v[vx] = value;
        Ok(())
    }

    /// AND Vx, Vy: Vx becomes the bitwise and of Vx and Vy.
    pub fn and_vx_vy(&mut self, vx: usize, vy: usize) -> (res: Result<(), Chip8Exception>)
        requires
            old(self).wf(),
            vx < 16,
            vy < 16,
        ensures
            res is Ok,
            final(self)@ == old(self)@.and_vx_vy(vx as int, vy as int),
            final(self).wf(),
    {
        let value: u8 = self.v[vx] & self.v[vy];
        self.v[vx] = value;
        Ok(())
    }

    /// XOR Vx, Vy: Vx becomes the bitwise exclusive or of Vx and Vy.
    pub fn xor_vx_vy(&mut self, vx: usize, vy: usize) -> (res: Result<(), Chip8Exception>)
        requires
            old(self).wf(),
            vx < 16,
            vy < 16,
        ensures
            res is Ok,
            final(self)@ == old(self)@.xor_vx_vy(vx as int, vy as int),
            final(self).wf(),
    {
        let value: u8 = self.v[vx] ^ self.v[vy];
        self.v[vx] = value;
        Ok(())
    }

    /// ADD Vx, Vy: Vx becomes Vx plus Vy modulo 256, and VF tells whether the
    /// sum passed 255.
    pub fn add_vx_vy(&mut self, vx: usize, vy: usize) -> (res: Result<(), Chip8Exception>)
        requires
            old(self).wf(),
            vx < 16,
            vy < 16,
        ensures
            res is Ok,
            final(self)@ == old(self)@.add_vx_vy(vx as int, vy as int),
            final(self).wf(),
    {
        let a: u8 = self.v[vx];
        let b: u8 = self.v[vy];
        let value: u8 = a.wrapping_add(b);
        let carry: bool = a > 255 - b;
        self.v[0xF] = if carry { 1 } else { 0 };
        self.v[vx] = value;
        Ok(())
    }

    /// SUB Vx, Vy: Vx becomes Vx minus Vy modulo 256, and VF tells whether Vx
    /// was strictly the larger.
    pub fn sub_vx_vy(&mut self, vx: usize, vy: usize) -> (res: Result<(), Chip8Exception>)
        requires
            old(self).wf(),
            vx < 16,
            vy < 16,
        ensures
            res is Ok,
            final(self)@ == old(self)@.sub_vx_vy(vx as int, vy as int),
            final(self).wf(),
    {
        let a: u8 = self.v[vx];
        let b: u8 = self.v[vy];
        self.v[0xF] = if a > b { 1 } else { 0 };
        self.v[vx] = a.wrapping_sub(b);
        Ok(())
    }

    /// SHR Vx: Vx is shifted right by one, and VF takes the bit shifted out.
    /// Vy plays no part.
    pub fn shr_vx_vy(&mut self, vx: usize, vy: usize) -> (res: Result<(), Chip8Exception>)
        requires
            old(self).wf(),
            vx < 16,
        ensures
            res is Ok,
            final(self)@ == old(self)@.shr_vx_vy(vx as int, vy as int),
            final(self).wf(),
    {
        let a: u8 = self.v[vx];
        let out: u8 = a & 1;
        let value: u8 = a >> 1;
        assert(out == a % 2 && value == a / 2) by (bit_vector)
            requires
                out == a & 1,
                value == a >> 1,
        ;
        self.v[0xF] = out;
        self.v[vx] = value;
        Ok(())
    }

    /// SUBN Vx, Vy: Vx becomes Vy minus Vx modulo 256, and VF tells whether
    /// Vy was strictly the larger.
    pub fn subn_vx_vy(&mut self, vx: usize, vy: usize) -> (res: Result<(), Chip8Exception>)
        requires
            old(self).wf(),
            vx < 16,
            vy < 16,
        ensures
            res is Ok,
            final(self)@ == old(self)@.subn_vx_vy(vx as int, vy as int),
            final(self).wf(),
    {
        let a: u8 = self.v[vx];
        let b: u8 = self.v[vy];
        self.v[0xF] = if b > a { 1 } else { 0 };
        self.v[vx] = b.wrapping_sub(a);
        Ok(())
    }

    /// SHL Vx: Vx is shifted left by one, and VF takes the bit shifted out.
    /// Vy plays no part.
    pub fn shl_vx_vy(&mut self, vx: usize, vy: usize) -> (res: Result<(), Chip8Exception>)
        requires
            old(self).wf(),
            vx < 16,
        ensures
            res is Ok,
            final(self)@ == old(self)@.shl_vx_vy(vx as int, vy as int),
            final(self).wf(),
    {
        let a: u8 = self.v[vx];
        let out: u8 = a >> 7;
        let value: u8 = a << 1;
        assert(out == (if a >= 128 { 1u8 } else { 0u8 }) && value == (a * 2) % 256) by (bit_vector)
            requires
                out == a >> 7,
                value == a << 1,
        ;
        self.v[0xF] = out;
        self.v[vx] = value;
        Ok(())
    }

    /// LD I, addr: I becomes `addr`.
    pub fn ld_i_addr(&mut self, addr: usize) -> (res: Result<(), Chip8Exception>)
        requires
            old(self).wf(),
            addr <= 0xFFF,
        ensures
            res is Ok,
            final(self)@ == old(self)@.ld_i_addr(addr as int),
            final(self).wf(),
    {
        self.i = addr;
        Ok(())
    }

    /// JP V0, addr: PC becomes `addr` plus V0.
    pub fn jp_v0_addr(&mut self, addr: usize) -> (res: Result<(), Chip8Exception>)
        requires
            old(self).wf(),
            addr <= 0xFFF,
        ensures
            res is Ok,
            final(self)@ == old(self)@.jp_v0_addr(addr as int),
            final(self).wf(),
    {
        self.pc = addr + self.v[0] as usize;
        Ok(())
    }

    /// RND Vx, byte with the byte that was drawn: Vx becomes `random` masked
    /// by `byte`.
    pub fn rnd_vx_byte_with(&mut self, vx: usize, byte: u8, random: u8) -> (res: Result<
        (),
        Chip8Exception,
    >)
        requires
            old(self).wf(),
            vx < 16,
        ensures
            res is Ok,
            final(self)@ == old(self)@.rnd_vx_byte(vx as int, byte, random),
            final(self).wf(),
    {
        self.v[vx] = random & byte;
        Ok(())
    }

    /// RND Vx, byte: draws a random byte, and Vx becomes that byte masked by
    /// `byte`. Whatever byte is drawn, the machine is as
    /// [`Chip8::rnd_vx_byte_with`] leaves it for that byte.
    pub fn rnd_vx_byte(&mut self, vx: usize, byte: u8) -> (res: Result<(), Chip8Exception>)
        requires
            old(self).wf(),
            vx < 16,
        ensures
            res is Ok,
            exists|random: u8|
                final(self)@ == #[trigger] old(self)@.rnd_vx_byte(vx as int, byte, random),
            final(self).wf(),
    {
        let random: u8 = random_byte();
        self.rnd_vx_byte_with(vx, byte, random)
    }

    /// SKP Vx: skips the next instruction if the key whose index is the value
    /// of Vx is pressed.
    pub fn skp_vx(&mut self, vx: usize) -> (res: Result<(), Chip8Exception>)
        requires
            old(self).wf(),
            vx < 16,
        ensures
            res is Ok,
            final(self)@ == old(self)@.skp_vx(vx as int),
            final(self).wf(),
    {
        let key: usize = self.v[vx] as usize;
        if key < 16 && self.keys[key] {
            self.skip_next();
        }
        Ok(())
    }

    /// SKNP Vx: skips the next instruction unless the key whose index is the
    /// value of Vx is pressed.
    pub fn sknp_vx(&mut self, vx: usize) -> (res: Result<(), Chip8Exception>)
        requires
            old(self).wf(),
            vx < 16,
        ensures
            res is Ok,
            final(self)@ == old(self)@.sknp_vx(vx as int),
            final(self).wf(),
    {
        let key: usize = self.v[vx] as usize;
        if !(key < 16 && self.keys[key]) {
            self.skip_next();
        }
        Ok(())
    }

    /// LD Vx, DT: Vx becomes the delay timer.
    pub fn ld_vx_dt(&mut self, vx: usize) -> (res: Result<(), Chip8Exception>)
        requires
            old(self).wf(),
            vx < 16,
        ensures
            res is Ok,
            final(self)@ == old(self)@.ld_vx_dt(vx as int),
            final(self).wf(),
    {
        self.v[vx] = self.dt;
        Ok(())
    }

    /// LD Vx, K: the machine starts to wait for a key press, whose index Vx
    /// will take.
    pub fn ld_vx_k(&mut self, vx: usize) -> (res: Result<(), Chip8Exception>)
        requires
            old(self).wf(),
            vx < 16,
        ensures
            res is Ok,
            final(self)@ == old(self)@.ld_vx_k(vx as int),
            final(self).wf(),
    {
        self.waiting_for_key = true;
        self.read_key_registry = vx;
        Ok(())
    }

    /// LD DT, Vx: the delay timer becomes Vx.
    pub fn ld_dt_vx(&mut self, vx: usize) -> (res: Result<(), Chip8Exception>)
        requires
            old(self).wf(),
            vx < 16,
        ensures
            res is Ok,
            final(self)@ == old(self)@.ld_dt_vx(vx as int),
            final(self).wf(),
    {
        self.dt = self.v[vx];
        Ok(())
    }

    /// LD ST, Vx: the sound timer becomes Vx.
    pub fn ld_st_vx(&mut self, vx: usize) -> (res: Result<(), Chip8Exception>)
        requires
            old(self).wf(),
            vx < 16,
        ensures
            res is Ok,
            final(self)@ == old(self)@.ld_st_vx(vx as int),
            final(self).wf(),
    {
        self.st = self.v[vx];
        Ok(())
    }

    /// ADD I, Vx: I becomes I plus Vx, as 16 bits hold it.
    pub fn add_i_vx(&mut self, vx: usize) -> (res: Result<(), Chip8Exception>)
        requires
            old(self).wf(),
            vx < 16,
        ensures
            res is Ok,
            final(self)@ == old(self)@.add_i_vx(vx as int),
            final(self).wf(),
    {
        self.i = (self.i + self.v[vx] as usize) % 0x10000;
        Ok(())
    }

    /// LD F, Vx: I becomes the address of the glyph for the value of Vx.
    pub fn ld_f_vx(&mut self, vx: usize) -> (res: Result<(), Chip8Exception>)
        requires
            old(self).wf(),
            vx < 16,
        ensures
            res is Ok,
            final(self)@ == old(self)@.ld_f_vx(vx as int),
            final(self).wf(),
    {
        self.i = self.font_base_addr + 5 * (self.v[vx] as usize);
        Ok(())
    }

    /// LD B, Vx: the hundreds, tens and ones of the value of Vx are stored at
    /// I, I+1 and I+2; `MemoryOverflow`, and nothing stored, if one of the
    /// three lies past the end of memory.
    pub fn ld_b_vx(&mut self, vx: usize) -> (res: Result<(), Chip8Exception>)
        requires
            old(self).wf(),
            vx < 16,
        ensures
            res == old(self)@.ld_b_vx(vx as int).result,
            final(self)@ == old(self)@.ld_b_vx(vx as int).state,
            final(self).wf(),
    {
        if self.i + 2 >= 4096 {
            return Err(Chip8Exception::MemoryOverflow);
        }
        let value: u8 = self.v[vx];
        let at: usize = self.i;
        self.memory[at] = value / 100;
        self.memory[at + 1] = (value / 10) % 10;
        self.memory[at + 2] = value % 10;
        Ok(())
    }

    /// Pushes `value` on the stack; `StackOverflow`, and nothing pushed, if
    /// all sixteen entries are in use.
    pub fn stack_push(&mut self, value: usize) -> (res: Result<(), Chip8Exception>)
        requires
            old(self).wf(),
            value <= 0xFFFF,
        ensures
            res == old(self)@.stack_push(value as int).result,
            final(self)@ == old(self)@.stack_push(value as int).state,
            final(self).wf(),
    {
        if self.sp >= 16 {
            return Err(Chip8Exception::StackOverflow);
        }
        let top: usize = self.sp;
        self.stack[top] = value;
        self.sp = top + 1;
        Ok(())
    }

    /// Pops the top of the stack and returns it; `StackUnderflow`, and
    /// nothing popped, if the stack is empty.
    pub fn stack_pop(&mut self) -> (res: Result<usize, Chip8Exception>)
        requires
            old(self).wf(),
        ensures
            match old(self)@.stack_top() {
                Some(addr) => res == Ok::<usize, Chip8Exception>(addr as usize),
                None => res == Err::<usize, Chip8Exception>(Chip8Exception::StackUnderflow),
            },
            final(self)@ == old(self)@.stack_pop().state,
            final(self).wf(),
    {
        if self.sp == 0 {
            return Err(Chip8Exception::StackUnderflow);
        }
        self.sp = self.sp - 1;
        let ret_addr: usize = self.stack[self.sp];
        Ok(ret_addr)
    }

    /// Reads the opcode at PC, high byte first, and moves PC past it;
    /// `MemoryOverflow`, and PC left where it is, if the opcode's second
    /// byte would lie past the end of memory.
    pub fn fetch_instruction(&mut self) -> (res: Result<u16, Chip8Exception>)
        requires
            old(self).wf(),
        ensures
            old(self)@.can_fetch() ==> res == Ok::<u16, Chip8Exception>(
                old(self)@.op_code_at_pc(),
            ),
            !old(self)@.can_fetch() ==> res == Err::<u16, Chip8Exception>(
                Chip8Exception::MemoryOverflow,
            ),
            final(self)@ == old(self)@.fetch().state,
            final(self).wf(),
    {
        if self.pc + 1 >= 4096 {
            return Err(Chip8Exception::MemoryOverflow);
        }
        let high: u8 = self.memory[self.pc];
        let low: u8 = self.memory[self.pc + 1];
        let op_code: u16 = (high as u16) << 8 | low as u16;
        assert(op_code == high * 256 + low) by (bit_vector)
            requires
                op_code == (high as u16) << 8 | low as u16,
        ;
        self.pc = self.pc + 2;
        Ok(op_code)
    }

    /// CLS: every pixel is cleared and the display is marked as changed.
    pub fn cls(&mut self) -> (res: Result<(), Chip8Exception>)
        requires
            old(self).wf(),
        ensures
            res is Ok,
            final(self)@ == old(self)@.cls(),
            final(self).wf(),
    {
        self.video_memory = [false; 2048];
        self.rendered = true;
        Ok(())
    }

    /// RET: PC becomes the address popped from the stack; `StackUnderflow`,
    /// and nothing changed, if the stack is empty.
    pub fn ret(&mut self) -> (res: Result<(), Chip8Exception>)
        requires
            old(self).wf(),
        ensures
            res == old(self)@.ret().result,
            final(self)@ == old(self)@.ret().state,
            final(self).wf(),
    {
        match self.stack_pop() {
            Ok(value) => {
                self.pc = value;
                Ok(())
            },
            Err(e) => Err(e),
        }
    }

    /// CALL addr: PC is pushed on the stack and becomes `addr`;
    /// `StackOverflow`, and nothing changed, if the stack is full.
    pub fn call_addr(&mut self, addr: usize) -> (res: Result<(), Chip8Exception>)
        requires
            old(self).wf(),
            addr <= 0xFFF,
        ensures
            res == old(self)@.call_addr(addr as int).result,
            final(self)@ == old(self)@.call_addr(addr as int).state,
            final(self).wf(),
    {
        let return_to: usize = self.pc;
        match self.stack_push(return_to) {
            Ok(()) => {
                self.pc = addr;
                Ok(())
            },
            Err(e) => Err(e),
        }
    }

    /// Steps the timer divider once: the cycle counter goes up by one, and
    /// when it reaches the divisor it starts again from zero and the delay
    /// and sound timers each lose one, unless already at zero.
    pub fn update_timers(&mut self)
        requires
            old(self).wf(),
        ensures
            final(self)@ == old(self)@.update_timers(),
            final(self).wf(),
    {
        if self.timer_counter + 1 >= self.timer_divisor {
            if self.dt > 0 {
                self.dt = self.dt - 1;
            }
            if self.st > 0 {
                self.st = self.st - 1;
            }
            self.timer_counter = 0;
        } else {
            self.timer_counter = self.timer_counter + 1;
        }
    }

    /// LD [I], Vx: V0 to Vx, Vx included, are stored in memory from I on;
    /// `MemoryOverflow`, and nothing stored, if the last of them would fall
    /// past the end of memory.
    pub fn ld_mem_i_vx(&mut self, vx: usize) -> (res: Result<(), Chip8Exception>)
        requires
            old(self).wf(),
            vx < 16,
        ensures
            res == old(self)@.ld_mem_i_vx(vx as int).result,
            final(self)@ == old(self)@.ld_mem_i_vx(vx as int).state,
            final(self).wf(),
    {
        if self.i + vx >= 4096 {
            return Err(Chip8Exception::MemoryOverflow);
        }
        let ghost before = self@;
        let mut r: usize = 0;
        while r <= vx
            invariant
                vx < 16,
                0 <= r <= vx + 1,
                before.wf(),
                before.i + vx < 4096,
                self@ == (MachineState { memory: self@.memory, ..before }),
                forall|a: int|
                    0 <= a < 4096 ==> self@.memory[a] == (if before.i <= a < before.i + r {
                        before.v[a - before.i]
                    } else {
                        before.memory[a]
                    }),
            decreases vx + 1 - r,
        {
            let at: usize = self.i + r;
            self.memory[at] = self.v[r];
            r = r + 1;
        }
        Ok(())
    }

    /// LD Vx, [I]: V0 to Vx, Vx included, are read from memory from I on;
    /// `MemoryOverflow`, and nothing read, if the last of them would be read
    /// past the end of memory.
    pub fn ld_vx_mem_i(&mut self, vx: usize) -> (res: Result<(), Chip8Exception>)
        requires
            old(self).wf(),
            vx < 16,
        ensures
            res == old(self)@.ld_vx_mem_i(vx as int).result,
            final(self)@ == old(self)@.ld_vx_mem_i(vx as int).state,
            final(self).wf(),
    {
        if self.i + vx >= 4096 {
            return Err(Chip8Exception::MemoryOverflow);
        }
        let ghost before = self@;
        let mut r: usize = 0;
        while r <= vx
            invariant
                vx < 16,
                0 <= r <= vx + 1,
                before.wf(),
                before.i + vx < 4096,
                self@ == (MachineState { v: self@.v, ..before }),
                forall|k: int|
                    0 <= k < 16 ==> self@.v[k] == (if k < r {
                        before.memory[before.i + k]
                    } else {
                        before.v[k]
                    }),
            decreases vx + 1 - r,
        {
            self.v[r] = self.memory[self.i + r];
            r = r + 1;
        }
        Ok(())
    }

    /// DRW Vx, Vy, nibble: the sprite of `nibble` bytes at I is drawn with its
    /// top left corner at column Vx mod 64, row Vy mod 32. Each set bit of
    /// the sprite flips the pixel it lands on, columns and rows wrapping
    /// round the screen; VF becomes 1 if a lit pixel was put out and 0 if
    /// none was, and the display is marked as changed. `MemoryOverflow`, and
    /// nothing drawn, if the sprite reaches past the end of memory.
    pub fn drw_vx_vy_nibble(&mut self, vx: usize, vy: usize, nibble: u8) -> (res: Result<
        (),
        Chip8Exception,
    >)
        requires
            old(self).wf(),
            vx < 16,
            vy < 16,
            nibble < 16,
        ensures
            res == old(self)@.drw_vx_vy_nibble(vx as int, vy as int, nibble as int).result,
            final(self)@ == old(self)@.drw_vx_vy_nibble(vx as int, vy as int, nibble as int).state,
            final(self).wf(),
    {
        if self.i + nibble as usize > 4096 {
            return Err(Chip8Exception::MemoryOverflow);
        }
        let x0: usize = self.v[vx] as usize % 64;
        let y0: usize = self.v[vy] as usize % 32;
        let ghost before = self@;
        let ghost sprite = before.sprite(nibble as int);
        proof {
            lemma_draw_start(before.video_memory, sprite, x0 as int, y0 as int);
        }
        self.v[0xF] = 0;
        let mut y: u8 = 0;
        while y < nibble
            invariant
                y <= nibble < 16,
                x0 < 64,
                y0 < 32,
                before.wf(),
                before.i + nibble <= 4096,
                sprite == before.sprite(nibble as int),
                self@ == (MachineState {
                    video_memory: self@.video_memory,
                    v: before.v.update(15, self.v[15]),
                    ..before
                }),
                forall|p: int|
                    0 <= p < 2048 ==> self.video_memory[p] == (before.video_memory[p]
                        != covered_before(sprite, x0 as int, y0 as int, p, y as int, 0)),
                self.v[15] == (if collides_before(
                    before.video_memory,
                    sprite,
                    x0 as int,
                    y0 as int,
                    y as int,
                    0,
                ) {
                    1u8
                } else {
                    0u8
                }),
            decreases nibble - y,
        {
            let pixel_row: u8 = self.memory[self.i + y as usize];
            let vm_row: usize = (y0 + y as usize) % 32;
            let mut x: u8 = 0;
            while x < 8
                invariant
                    y < nibble < 16,
                    x <= 8,
                    x0 < 64,
                    y0 < 32,
                    before.wf(),
                    before.i + nibble <= 4096,
                    sprite == before.sprite(nibble as int),
                    pixel_row == sprite[y as int],
                    vm_row == (y0 + y) % 32,
                    self@ == (MachineState {
                        video_memory: self@.video_memory,
                        v: before.v.update(15, self.v[15]),
                        ..before
                    }),
                    forall|p: int|
                        0 <= p < 2048 ==> self.video_memory[p] == (before.video_memory[p]
                            != covered_before(sprite, x0 as int, y0 as int, p, y as int, x as int)),
                    self.v[15] == (if collides_before(
                        before.video_memory,
                        sprite,
                        x0 as int,
                        y0 as int,
                        y as int,
                        x as int,
                    ) {
                        1u8
                    } else {
                        0u8
                    }),
                decreases 8 - x,
            {
                let vm_col: usize = (x0 + x as usize) % 64;
                let pixel_value: bool = (pixel_row & (0x80u8 >> x)) != 0;
                proof {
                    lemma_draw_step(
                        before.video_memory,
                        sprite,
                        x0 as int,
                        y0 as int,
                        y as int,
                        x as int,
                    );
                }
                if pixel_value {
                    let position: usize = 64 * vm_row + vm_col;
                    let lit: bool = self.video_memory[position];
                    if lit {
                        self.v[0xF] = 1;
                    }
                    self.video_memory[position] = !lit;
                }
                x = x + 1;
            }
            proof {
                lemma_draw_row_end(before.video_memory, sprite, x0 as int, y0 as int, y as int);
            }
            y = y + 1;
        }
        proof {
            lemma_draw_end(before.video_memory, sprite, x0 as int, y0 as int);
        }
        self.rendered = true;
        Ok(())
    }

    /// Executes one decoded instruction. RND draws a random byte; whatever
    /// byte that is, result and machine are those of
    /// [`MachineState::execute`] for it, and no other instruction depends on
    /// it. On a fault the machine is left as it was.
    pub fn execute(&mut self, instruction: Instruction) -> (res: Result<(), Chip8Exception>)
        requires
            old(self).wf(),
            instruction.wf(),
        ensures
            exists|random: u8|
                res == (#[trigger] old(self)@.execute(instruction, random)).result && final(self)@
                    == old(self)@.execute(instruction, random).state,
            final(self).wf(),
    {
        let res: Result<(), Chip8Exception> = match instruction {
            Instruction::Cls => self.cls(),
            Instruction::Ret => self.ret(),
            Instruction::Sys { addr } => self.sys_addr(addr),
            Instruction::Jp { addr } => self.jp_addr(addr),
            Instruction::Call { addr } => self.call_addr(addr),
            Instruction::SeByte { x, byte } => self.se_vx_byte(x, byte),
            Instruction::SneByte { x, byte } => self.sne_vx_byte(x, byte),
            Instruction::SeReg { x, y } => self.se_vx_vy(x, y),
            Instruction::LdByte { x, byte } => self.ld_vx_byte(x, byte),
            Instruction::AddByte { x, byte } => self.add_vx_byte(x, byte),
            Instruction::LdReg { x, y } => self.ld_vx_vy(x, y),
            Instruction::Or { x, y } => self.or_vx_vy(x, y),
            Instruction::And { x, y } => self.and_vx_vy(x, y),
            Instruction::Xor { x, y } => self.xor_vx_vy(x, y),
            Instruction::AddReg { x, y } => self.add_vx_vy(x, y),
            Instruction::Sub { x, y } => self.sub_vx_vy(x, y),
            Instruction::Shr { x, y } => self.shr_vx_vy(x, y),
            Instruction::Subn { x, y } => self.subn_vx_vy(x, y),
            Instruction::Shl { x, y } => self.shl_vx_vy(x, y),
            Instruction::SneReg { x, y } => self.sne_vx_vy(x, y),
            Instruction::LdI { addr } => self.ld_i_addr(addr),
            Instruction::JpV0 { addr } => self.jp_v0_addr(addr),
            Instruction::Rnd { x, byte } => self.rnd_vx_byte(x, byte),
            Instruction::Drw { x, y, rows } => self.drw_vx_vy_nibble(x, y, rows),
            Instruction::Skp { x } => self.skp_vx(x),
            Instruction::Sknp { x } => self.sknp_vx(x),
            Instruction::LdVxDt { x } => self.ld_vx_dt(x),
            Instruction::LdVxK { x } => self.ld_vx_k(x),
            Instruction::LdDtVx { x } => self.ld_dt_vx(x),
            Instruction::LdStVx { x } => self.ld_st_vx(x),
            Instruction::AddI { x } => self.add_i_vx(x),
            Instruction::LdF { x } => self.ld_f_vx(x),
            Instruction::LdB { x } => self.ld_b_vx(x),
            Instruction::StoreRegs { x } => self.ld_mem_i_vx(x),
            Instruction::LoadRegs { x } => self.ld_vx_mem_i(x),
        };
        proof {
            let random: u8 = match instruction {
                Instruction::Rnd { x, byte } => choose|random: u8|
                    self@ == #[trigger] old(self)@.rnd_vx_byte(x as int, byte, random),
                _ => 0u8,
            };
            let expected = old(self)@.execute(instruction, random);
            assert(res is Ok <==> expected.result is Ok);
            assert(res is Err ==> res->Err_0 == expected.result->Err_0);
            assert(res is Ok ==> res->Ok_0 == expected.result->Ok_0);
            assert(res == expected.result);
            assert(self@ == expected.state);
        }
        res
    }

    /// Decodes `op_code` and executes the instruction it stands for;
    /// `InvalidInstruction`, and nothing changed, if it stands for none.
    /// Whatever byte RND draws, result and machine are those of
    /// [`MachineState::decode_and_exec`] for it.
    pub fn decode_and_exec_instruction(&mut self, op_code: u16) -> (res: Result<
        (),
        Chip8Exception,
    >)
        requires
            old(self).wf(),
        ensures
            exists|random: u8|
                res == (#[trigger] old(self)@.decode_and_exec(op_code, random)).result
                    && final(self)@ == old(self)@.decode_and_exec(op_code, random).state,
            final(self).wf(),
    {
        match decode(op_code) {
            Some(instruction) => {
                let res: Result<(), Chip8Exception> = self.execute(instruction);
                proof {
                    let random: u8 = choose|random: u8|
                        res == (#[trigger] old(self)@.execute(instruction, random)).result && self@
                            == old(self)@.execute(instruction, random).state;
                    assert(res == old(self)@.decode_and_exec(op_code, random).result);
                    assert(self@ == old(self)@.decode_and_exec(op_code, random).state);
                }
                res
            },
            None => {
                assert(old(self)@.decode_and_exec(op_code, 0u8).result == Err::<
                    (),
                    Chip8Exception,
                >(Chip8Exception::InvalidInstruction));
                assert(self@ == old(self)@.decode_and_exec(op_code, 0u8).state);
                Err(Chip8Exception::InvalidInstruction)
            },
        }
    }

    /// Takes the state of the pad from `input`: key `k` becomes `input[k]`
    /// for each of the first sixteen entries that `input` has. A machine that
    /// waits for a key stops waiting if one of them is pressed, and the
    /// register it waits for takes the index of the first such key.
    pub fn read_input(&mut self, input: &[bool])
        requires
            old(self).wf(),
        ensures
            final(self)@ == old(self)@.read_input(input@),
            final(self).wf(),
    {
        let ghost before = self@;
        let ghost mut found: Option<int> = None;
        let count: usize = if input.len() < 16 {
            input.len()
        } else {
            16
        };
        let mut k: usize = 0;
        while k < count
            invariant
                k <= count <= 16,
                count <= input@.len(),
                count == 16 || count == input@.len(),
                before.wf(),
                found matches Some(key) ==> 0 <= key < k,
                first_pressed(input@, 0) == (if found is Some {
                    found
                } else {
                    first_pressed(input@, k as int)
                }),
                self@ == (MachineState {
                    keys: self@.keys,
                    v: self@.v,
                    waiting_for_key: self@.waiting_for_key,
                    ..before
                }),
                forall|j: int|
                    0 <= j < 16 ==> self@.keys[j] == (if j < k {
                        input@[j]
                    } else {
                        before.keys[j]
                    }),
                self@.waiting_for_key == (before.waiting_for_key && found is None),
                self@.v == (if before.waiting_for_key && found is Some {
                    before.v.update(before.read_key_registry, found->Some_0 as u8)
                } else {
                    before.v
                }),
            decreases count - k,
        {
            let item: bool = input[k];
            self.keys[k] = item;
            if item {
                proof {
                    if found is None {
                        found = Some(k as int);
                    }
                }
                if self.waiting_for_key {
                    let register: usize = self.read_key_registry;
                    self.v[register] = k as u8;
                    self.waiting_for_key = false;
                }
            }
            k = k + 1;
        }
    }

    /// Runs one cycle. A machine that is paused or waits for a key is left
    /// as it is. Any other one clears the display-changed flag, fetches the
    /// opcode at PC, executes it and steps the timer divider. A fault ends
    /// the cycle where it occurs and is returned: after a failed fetch only
    /// the flag has been cleared; after a failed instruction PC is past it,
    /// nothing else of it has happened and the timers have not moved.
    /// Whatever byte RND draws, result and machine are those of
    /// [`MachineState::cycle`] for it.
    pub fn cycle(&mut self) -> (res: Result<(), Chip8Exception>)
        requires
            old(self).wf(),
        ensures
            exists|random: u8|
                res == (#[trigger] old(self)@.cycle(random)).result && final(self)@ == old(
                    self,
                )@.cycle(random).state,
            final(self).wf(),
    {
        if self.interrupted || self.waiting_for_key {
            assert(old(self)@.cycle(0u8).result is Ok);
            assert(self@ == old(self)@.cycle(0u8).state);
            return Ok(());
        }
        self.rendered = false;
        let ghost cleared = self@;
        let op_code: u16 = match self.fetch_instruction() {
            Ok(op_code) => op_code,
            Err(e) => {
                assert(old(self)@.cycle(0u8).result == Err::<(), Chip8Exception>(e));
                assert(self@ == old(self)@.cycle(0u8).state);
                return Err(e);
            },
        };
        let ghost fetched = self@;
        let res: Result<(), Chip8Exception> = self.decode_and_exec_instruction(op_code);
        let ghost random: u8 = choose|random: u8|
            res == (#[trigger] fetched.decode_and_exec(op_code, random)).result && self@
                == fetched.decode_and_exec(op_code, random).state;
        match res {
            Ok(()) => {
                self.update_timers();
                assert(old(self)@.cycle(random).result is Ok);
                assert(self@ == old(self)@.cycle(random).state);
                Ok(())
            },
            Err(e) => {
                assert(old(self)@.cycle(random).result == Err::<(), Chip8Exception>(e));
                assert(self@ == old(self)@.cycle(random).state);
                Err(e)
            },
        }
    }

    /// One turn of the host loop: reads the pad from `input`, then runs one
    /// cycle and returns its fault, if any. Whatever byte RND draws, result
    /// and machine are those of [`MachineState::tick`] for it.
    pub fn tick(&mut self, input: &[bool]) -> (res: Result<(), Chip8Exception>)
        requires
            old(self).wf(),
        ensures
            exists|random: u8|
                res == (#[trigger] old(self)@.tick(input@, random)).result && final(self)@ == old(
                    self,
                )@.tick(input@, random).state,
            final(self).wf(),
    {
        self.read_input(input);
        let ghost read = self@;
        let res: Result<(), Chip8Exception> = self.cycle();
        proof {
            let random: u8 = choose|random: u8|
                res == (#[trigger] read.cycle(random)).result && self@ == read.cycle(random).state;
            assert(res == old(self)@.tick(input@, random).result);
            assert(self@ == old(self)@.tick(input@, random).state);
        }
        res
    }

    /// Initialises the machine: memory is zeroed, the font table is copied
    /// to the font's base address, and the framebuffer is cleared.
    pub fn init(&mut self)
        requires
            old(self).font_base_addr + 80 <= 4096,
        ensures
            final(self)@ == old(self)@.init(),
            old(self).wf() ==> final(self).wf(),
    {
        let font: [u8; 80] = font_glyphs();
        let ghost before = self@;
        self.memory = [0; 4096];
        let mut k: usize = 0;
        while k < 80
            invariant
                k <= 80,
                font@ == font_table(),
                before.font_base_addr + 80 <= 4096,
                0 <= before.font_base_addr,
                self@ == (MachineState { memory: self@.memory, ..before }),
                forall|a: int|
                    0 <= a < 4096 ==> self@.memory[a] == (if before.font_base_addr <= a
                        < before.font_base_addr + k {
                        font_table()[a - before.font_base_addr]
                    } else {
                        0u8
                    }),
            decreases 80 - k,
        {
            let at: usize = self.font_base_addr + k;
            self.memory[at] = font[k];
            k = k + 1;
        }
        self.video_memory = [false; 2048];
    }

    /// Copies `program` into memory from `addr` on. The program has to fit:
    /// one loaded at 0x200 can have 3584 bytes at most.
    pub fn load_rom(&mut self, addr: usize, program: &[u8])
        requires
            addr + program@.len() <= 4096,
        ensures
            final(self)@ == old(self)@.load_rom(addr as int, program@),
            old(self).wf() ==> final(self).wf(),
    {
        let ghost before = self@;
        let mut k: usize = 0;
        while k < program.len()
            invariant
                k <= program@.len(),
                addr + program@.len() <= 4096,
                self@ == (MachineState { memory: self@.memory, ..before }),
                forall|a: int|
                    0 <= a < 4096 ==> self@.memory[a] == (if addr <= a < addr + k {
                        program@[a - addr]
                    } else {
                        before.memory[a]
                    }),
            decreases program@.len() - k,
        {
            let at: usize = addr + k;
            self.memory[at] = program[k];
            k = k + 1;
        }
    }

    /// Sets the timer divider for a machine that the host runs at `hz`
    /// cycles a second, so that the timers tick at 60 Hz: `hz / 60` cycles
    /// make one tick, and one at the least.
    pub fn set_cycle_rate(&mut self, hz: usize)
        ensures
            final(self)@ == old(self)@.set_cycle_rate(hz as int),
            old(self).wf() ==> final(self).wf(),
    {
        let divisor: usize = if hz / 60 < 1 {
            1
        } else {
            hz / 60
        };
        self.timer_divisor = divisor;
        if self.timer_counter >= divisor {
            self.timer_counter = 0;
        }
    }

    /// The pixel in column `x` of row `y`: `true` if it is lit.
    pub fn get_pixel(&self, x: usize, y: usize) -> (lit: bool)
        requires
            x < 64,
            y < 32,
        ensures
            lit == self@.pixel(x as int, y as int),
    {
        self.video_memory[64 * y + x]
    }

    /// Whether the buzzer is to sound: it does while the sound timer is
    /// above zero.
    pub fn sound_active(&self) -> (active: bool)
        ensures
            active == (self@.st > 0),
    {
        self.st > 0
    }
}

} // verus!
