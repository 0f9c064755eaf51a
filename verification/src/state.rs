//! The machine as a value of mathematics: what every contract of the
//! interpreter is stated over.

use vstd::prelude::*;
use crate::chip8::Chip8Exception;

verus! {

/// Bytes of addressable memory.
pub const MEMORY_SIZE: usize = 4096;

/// Pixels of the framebuffer: 32 rows of 64, row after row.
pub const SCREEN_PIXELS: usize = 2048;

/// Return addresses the call stack can hold.
pub const STACK_DEPTH: usize = 16;

/// General registers, V0 to VF.
pub const REGISTER_COUNT: usize = 16;

/// Keys of the pad.
pub const KEY_COUNT: usize = 16;

/// Where programs are loaded and start.
pub const PROGRAM_START: usize = 0x200;

/// The largest value of a 16-bit register such as PC and I.
pub const ADDRESS_MAX: usize = 0xFFFF;

/// The model of a machine: sequences for its arrays, integers for its
/// addresses and counters.
#[verifier::ext_equal]
pub struct MachineState {
    pub memory: Seq<u8>,
    pub video_memory: Seq<bool>,
    pub stack: Seq<int>,
    pub v: Seq<u8>,
    pub keys: Seq<bool>,
    pub i: int,
    pub dt: u8,
    pub st: u8,
    pub pc: int,
    pub sp: int,
    pub timer_counter: int,
    pub timer_divisor: int,
    pub font_base_addr: int,
    pub waiting_for_key: bool,
    pub read_key_registry: int,
    pub interrupted: bool,
    pub rendered: bool,
}

/// What a step leaves behind: the machine after it, and whether it faulted.
pub struct Outcome {
    pub state: MachineState,
    pub result: Result<(), Chip8Exception>,
}

impl MachineState {
    /// The invariant of a machine: every array has its size, PC, I and the
    /// return addresses in use fit in 16 bits, the stack pointer is within
    /// the stack, the font table fits in memory, the timer divider counts
    /// below its threshold, and the key-wait latch names a register.
    pub open spec fn wf(self) -> bool {
        &&& self.memory.len() == MEMORY_SIZE
        &&& self.video_memory.len() == SCREEN_PIXELS
        &&& self.stack.len() == STACK_DEPTH
        &&& self.v.len() == REGISTER_COUNT
        &&& self.keys.len() == KEY_COUNT
        &&& 0 <= self.i <= ADDRESS_MAX
        &&& 0 <= self.pc <= ADDRESS_MAX
        &&& 0 <= self.sp <= STACK_DEPTH
        &&& forall|k: int| 0 <= k < self.sp ==> 0 <= #[trigger] self.stack[k] <= ADDRESS_MAX
        &&& 1 <= self.timer_divisor
        &&& 0 <= self.timer_counter < self.timer_divisor
        &&& 0 <= self.font_base_addr
        &&& self.font_base_addr + 80 <= MEMORY_SIZE
        &&& 0 <= self.read_key_registry < REGISTER_COUNT
    }

    /// The step succeeded and left `self`.
    pub open spec fn done(self) -> Outcome {
        Outcome { state: self, result: Ok(()) }
    }

    /// The step faulted with `fault` and left `self`.
    pub open spec fn failed(self, fault: Chip8Exception) -> Outcome {
        Outcome { state: self, result: Err(fault) }
    }
}

/// `x` as a 16-bit register holds it.
pub open spec fn wrap16(x: int) -> int {
    x % 0x10000
}

/// `x` as an 8-bit register holds it.
pub open spec fn wrap8(x: int) -> u8 {
    (x % 256) as u8
}

} // verus!
