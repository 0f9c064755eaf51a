//! A CHIP-8 virtual machine: the interpreter core, stated over a mathematical
//! model of the machine and proved against it.
//!
//! [`chip8::Chip8`] is the machine a host owns: 4 KB of memory, sixteen
//! registers, a call stack, two timers, a 64 by 32 framebuffer and a pad of
//! sixteen keys. The host hands it the pad once a turn with
//! [`chip8::Chip8::tick`], which runs one cycle: fetch, decode, execute, and a
//! step of the divider that makes the timers tick at 60 Hz whatever the cycle
//! rate. Faults come back as [`chip8::Chip8Exception`].
//!
//! [`state::MachineState`] is the same machine in mathematics, and
//! [`semantics`] says there what every operation does; the contracts of the
//! executable operations refer to it. [`laws`] holds what follows for every
//! machine: the invariant, the key wait, the stack's limits, the timers'
//! period, a sprite drawn twice.

pub mod state;
pub mod display;
pub mod instruction;
pub mod semantics;
pub mod font;
pub mod random;
pub mod chip8;
pub mod keypad;
pub mod laws;
