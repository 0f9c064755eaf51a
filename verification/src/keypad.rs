//! The host's keyboard as a hexadecimal pad.
//!
//! A key of the keyboard is given by its code: for a key that types a
//! character, the ASCII code of that character, unshifted. The four rows of
//! the pad lie on the four rows of keys from `1` to `V`:
//!
//! ```text
//! pad       keyboard
//! 1 2 3 C   1 2 3 4
//! 4 5 6 D   Q W E R
//! 7 8 9 E   A S D F
//! A 0 B F   Z X C V
//! ```

use vstd::prelude::*;
use crate::chip8::Chip8;

verus! {

/// The code of the key that pauses and resumes the machine: `P`.
pub const KEY_PAUSE: i32 = 112;

/// The pad key on which the keyboard key with code `keycode` lies, if it lies
/// on one.
pub open spec fn pad_key_spec(keycode: i32) -> Option<usize> {
    if keycode == 49 {
        Some(0x1usize)
    } else if keycode == 50 {
        Some(0x2usize)
    } else if keycode == 51 {
        Some(0x3usize)
    } else if keycode == 52 {
        Some(0xCusize)
    } else if keycode == 113 {
        Some(0x4usize)
    } else if keycode == 119 {
        Some(0x5usize)
    } else if keycode == 101 {
        Some(0x6usize)
    } else if keycode == 114 {
        Some(0xDusize)
    } else if keycode == 97 {
        Some(0x7usize)
    } else if keycode == 115 {
        Some(0x8usize)
    } else if keycode == 100 {
        Some(0x9usize)
    } else if keycode == 102 {
        Some(0xEusize)
    } else if keycode == 122 {
        Some(0xAusize)
    } else if keycode == 120 {
        Some(0x0usize)
    } else if keycode == 99 {
        Some(0xBusize)
    } else if keycode == 118 {
        Some(0xFusize)
    } else {
        None
    }
}

/// The pad key on which the keyboard key with code `keycode` lies, if it lies
/// on one.
pub fn pad_key(keycode: i32) -> (key: Option<usize>)
    ensures
        key == pad_key_spec(keycode),
        key matches Some(k) ==> k < 16,
{
    match keycode {
        // 1 2 3 4
        49 => Some(0x1),
        50 => Some(0x2),
        51 => Some(0x3),
        52 => Some(0xC),
        // Q W E R
        113 => Some(0x4),
        119 => Some(0x5),
        101 => Some(0x6),
        114 => Some(0xD),
        // A S D F
        97 => Some(0x7),
        115 => Some(0x8),
        100 => Some(0x9),
        102 => Some(0xE),
        // Z X C V
        122 => Some(0xA),
        120 => Some(0x0),
        99 => Some(0xB),
        118 => Some(0xF),
        _ => None,
    }
}

/// Takes one key event of the host: the key with code `keycode` went down
/// (`pressed`) or up. A key that lies on the pad sets its pad key in
/// `pad_state` to `pressed`. The pause key, when it goes down, pauses a
/// running machine and resumes a paused one. Any other event changes
/// nothing.
pub fn handle_key(pad_state: &mut [bool; 16], machine: &mut Chip8, keycode: i32, pressed: bool)
    ensures
        match pad_key_spec(keycode) {
            Some(key) => final(pad_state)@ == old(pad_state)@.update(key as int, pressed),
            None => final(pad_state)@ == old(pad_state)@,
        },
        final(machine)@ == (if keycode == KEY_PAUSE && pressed {
            old(machine)@.interrupt()
        } else {
            old(machine)@
        }),
        old(machine).wf() ==> final(machine).wf(),
{
    match pad_key(keycode) {
        Some(key) => {
            pad_state[key] = pressed;
        },
        None => {
            if keycode == KEY_PAUSE && pressed {
                machine.interrupt();
            }
        },
    }
}

} // verus!
