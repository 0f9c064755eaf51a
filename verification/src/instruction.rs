//! The instruction set: what an opcode decodes to.

use vstd::prelude::*;

verus! {

/// One decoded operation with its operands: `x` and `y` name registers,
/// `byte` is the 8-bit immediate, `addr` the 12-bit address and `rows` the
/// 4-bit height of a sprite.
#[derive(Debug, Clone, Copy, PartialEq, Eq)]
pub enum Instruction {
    /// `00E0`: clear the framebuffer.
    Cls,
    /// `00EE`: return from a subroutine.
    Ret,
    /// `0nnn`: call into the host; does nothing.
    Sys { addr: usize },
    /// `1nnn`: jump to `addr`.
    Jp { addr: usize },
    /// `2nnn`: call the subroutine at `addr`.
    Call { addr: usize },
    /// `3xkk`: skip the next instruction if Vx equals `byte`.
    SeByte { x: usize, byte: u8 },
    /// `4xkk`: skip the next instruction if Vx differs from `byte`.
    SneByte { x: usize, byte: u8 },
    /// `5xy0`: skip the next instruction if Vx equals Vy.
    SeReg { x: usize, y: usize },
    /// `6xkk`: load `byte` into Vx.
    LdByte { x: usize, byte: u8 },
    /// `7xkk`: add `byte` to Vx.
    AddByte { x: usize, byte: u8 },
    /// `8xy0`: copy Vy into Vx.
    LdReg { x: usize, y: usize },
    /// `8xy1`: Vx becomes Vx or Vy.
    Or { x: usize, y: usize },
    /// `8xy2`: Vx becomes Vx and Vy.
    And { x: usize, y: usize },
    /// `8xy3`: Vx becomes Vx exclusive-or Vy.
    Xor { x: usize, y: usize },
    /// `8xy4`: add Vy to Vx, VF takes the carry.
    AddReg { x: usize, y: usize },
    /// `8xy5`: subtract Vy from Vx, VF tells whether Vx was the larger.
    Sub { x: usize, y: usize },
    /// `8xy6`: shift Vx right by one, VF takes the bit shifted out.
    Shr { x: usize, y: usize },
    /// `8xy7`: Vx becomes Vy minus Vx, VF tells whether Vy was the larger.
    Subn { x: usize, y: usize },
    /// `8xyE`: shift Vx left by one, VF takes the bit shifted out.
    Shl { x: usize, y: usize },
    /// `9xy0`: skip the next instruction if Vx differs from Vy.
    SneReg { x: usize, y: usize },
    /// `Annn`: load `addr` into I.
    LdI { addr: usize },
    /// `Bnnn`: jump to `addr` plus V0.
    JpV0 { addr: usize },
    /// `Cxkk`: load a random byte masked by `byte` into Vx.
    Rnd { x: usize, byte: u8 },
    /// `Dxyn`: draw the sprite of `rows` bytes at I on the screen at (Vx, Vy).
    Drw { x: usize, y: usize, rows: u8 },
    /// `Ex9E`: skip the next instruction if the key in Vx is pressed.
    Skp { x: usize },
    /// `ExA1`: skip the next instruction if the key in Vx is not pressed.
    Sknp { x: usize },
    /// `Fx07`: load the delay timer into Vx.
    LdVxDt { x: usize },
    /// `Fx0A`: wait for a key press and load its index into Vx.
    LdVxK { x: usize },
    /// `Fx15`: load Vx into the delay timer.
    LdDtVx { x: usize },
    /// `Fx18`: load Vx into the sound timer.
    LdStVx { x: usize },
    /// `Fx1E`: add Vx to I.
    AddI { x: usize },
    /// `Fx29`: load into I the address of the glyph for the value of Vx.
    LdF { x: usize },
    /// `Fx33`: store the three decimal digits of Vx at I, I+1 and I+2.
    LdB { x: usize },
    /// `Fx55`: store V0 to Vx in memory from I on.
    StoreRegs { x: usize },
    /// `Fx65`: load V0 to Vx from memory from I on.
    LoadRegs { x: usize },
}

impl Instruction {
    /// The operands are as wide as an opcode can carry them: a register index
    /// and a sprite height in four bits, an address in twelve.
    pub open spec fn wf(self) -> bool {
        match self {
            Instruction::Cls | Instruction::Ret => true,
            Instruction::Sys { addr }
            | Instruction::Jp { addr }
            | Instruction::Call { addr }
            | Instruction::LdI { addr }
            | Instruction::JpV0 { addr } => addr <= 0xFFF,
            Instruction::SeByte { x, .. }
            | Instruction::SneByte { x, .. }
            | Instruction::LdByte { x, .. }
            | Instruction::AddByte { x, .. }
            | Instruction::Rnd { x, .. }
            | Instruction::Skp { x }
            | Instruction::Sknp { x }
            | Instruction::LdVxDt { x }
            | Instruction::LdVxK { x }
            | Instruction::LdDtVx { x }
            | Instruction::LdStVx { x }
            | Instruction::AddI { x }
            | Instruction::LdF { x }
            | Instruction::LdB { x }
            | Instruction::StoreRegs { x }
            | Instruction::LoadRegs { x } => x < 16,
            Instruction::SeReg { x, y }
            | Instruction::LdReg { x, y }
            | Instruction::Or { x, y }
            | Instruction::And { x, y }
            | Instruction::Xor { x, y }
            | Instruction::AddReg { x, y }
            | Instruction::Sub { x, y }
            | Instruction::Shr { x, y }
            | Instruction::Subn { x, y }
            | Instruction::Shl { x, y }
            | Instruction::SneReg { x, y } => x < 16 && y < 16,
            Instruction::Drw { x, y, rows } => x < 16 && y < 16 && rows < 16,
        }
    }
}

/// The instruction that `op_code` stands for, if it stands for one. The four
/// hexadecimal digits of the opcode select the operation; `x` is the second
/// digit, `y` the third, `byte` the low two and `addr` the low three.
pub open spec fn decode_spec(op_code: u16) -> Option<Instruction> {
    let d0 = op_code as int / 0x1000;
    let x = ((op_code as int / 0x100) % 16) as usize;
    let y = ((op_code as int / 0x10) % 16) as usize;
    let d3 = op_code as int % 16;
    let addr = (op_code as int % 0x1000) as usize;
    let byte = (op_code as int % 0x100) as u8;
    if op_code == 0x00E0 {
        Some(Instruction::Cls)
    } else if op_code == 0x00EE {
        Some(Instruction::Ret)
    } else if d0 == 0x0 {
        Some(Instruction::Sys { addr })
    } else if d0 == 0x1 {
        Some(Instruction::Jp { addr })
    } else if d0 == 0x2 {
        Some(Instruction::Call { addr })
    } else if d0 == 0x3 {
        Some(Instruction::SeByte { x, byte })
    } else if d0 == 0x4 {
        Some(Instruction::SneByte { x, byte })
    } else if d0 == 0x5 && d3 == 0x0 {
        Some(Instruction::SeReg { x, y })
    } else if d0 == 0x6 {
        Some(Instruction::LdByte { x, byte })
    } else if d0 == 0x7 {
        Some(Instruction::AddByte { x, byte })
    } else if d0 == 0x8 && d3 == 0x0 {
        Some(Instruction::LdReg { x, y })
    } else if d0 == 0x8 && d3 == 0x1 {
        Some(Instruction::Or { x, y })
    } else if d0 == 0x8 && d3 == 0x2 {
        Some(Instruction::And { x, y })
    } else if d0 == 0x8 && d3 == 0x3 {
        Some(Instruction::Xor { x, y })
    } else if d0 == 0x8 && d3 == 0x4 {
        Some(Instruction::AddReg { x, y })
    } else if d0 == 0x8 && d3 == 0x5 {
        Some(Instruction::Sub { x, y })
    } else if d0 == 0x8 && d3 == 0x6 {
        Some(Instruction::Shr { x, y })
    } else if d0 == 0x8 && d3 == 0x7 {
        Some(Instruction::Subn { x, y })
    } else if d0 == 0x8 && d3 == 0xE {
        Some(Instruction::Shl { x, y })
    } else if d0 == 0x9 && d3 == 0x0 {
        Some(Instruction::SneReg { x, y })
    } else if d0 == 0xA {
        Some(Instruction::LdI { addr })
    } else if d0 == 0xB {
        Some(Instruction::JpV0 { addr })
    } else if d0 == 0xC {
        Some(Instruction::Rnd { x, byte })
    } else if d0 == 0xD {
        Some(Instruction::Drw { x, y, rows: d3 as u8 })
    } else if d0 == 0xE && byte == 0x9E {
        Some(Instruction::Skp { x })
    } else if d0 == 0xE && byte == 0xA1 {
        Some(Instruction::Sknp { x })
    } else if d0 == 0xF && byte == 0x07 {
        Some(Instruction::LdVxDt { x })
    } else if d0 == 0xF && byte == 0x0A {
        Some(Instruction::LdVxK { x })
    } else if d0 == 0xF && byte == 0x15 {
        Some(Instruction::LdDtVx { x })
    } else if d0 == 0xF && byte == 0x18 {
        Some(Instruction::LdStVx { x })
    } else if d0 == 0xF && byte == 0x1E {
        Some(Instruction::AddI { x })
    } else if d0 == 0xF && byte == 0x29 {
        Some(Instruction::LdF { x })
    } else if d0 == 0xF && byte == 0x33 {
        Some(Instruction::LdB { x })
    } else if d0 == 0xF && byte == 0x55 {
        Some(Instruction::StoreRegs { x })
    } else if d0 == 0xF && byte == 0x65 {
        Some(Instruction::LoadRegs { x })
    } else {
        None
    }
}

/// Whatever an opcode decodes to has operands of opcode width.
pub proof fn lemma_decoded_is_wf(op_code: u16)
    ensures
        decode_spec(op_code) matches Some(instruction) ==> instruction.wf(),
{
}

/// The operation and operands of `op_code`, or `None` where it matches no
/// instruction of the set.
pub fn decode(op_code: u16) -> (instruction: Option<Instruction>)
    ensures
        instruction == decode_spec(op_code),
        instruction matches Some(decoded) ==> decoded.wf(),
{
    let d0: u16 = (op_code & 0xF000) >> 12;
    let d1: u16 = (op_code & 0x0F00) >> 8;
    let d2: u16 = (op_code & 0x00F0) >> 4;
    let d3: u16 = op_code & 0x000F;
    let nnn: u16 = op_code & 0x0FFF;
    let kk: u16 = op_code & 0x00FF;
    assert(d0 == op_code / 0x1000) by (bit_vector)
        requires
            d0 == (op_code & 0xF000) >> 12,
    ;
    assert(d1 == (op_code / 0x100) % 16) by (bit_vector)
        requires
            d1 == (op_code & 0x0F00) >> 8,
    ;
    assert(d2 == (op_code / 0x10) % 16) by (bit_vector)
        requires
            d2 == (op_code & 0x00F0) >> 4,
    ;
    assert(d3 == op_code % 16) by (bit_vector)
        requires
            d3 == op_code & 0x000F,
    ;
    assert(nnn == op_code % 0x1000) by (bit_vector)
        requires
            nnn == op_code & 0x0FFF,
    ;
    assert(kk == op_code % 0x100) by (bit_vector)
        requires
            kk == op_code & 0x00FF,
    ;
    let x: usize = d1 as usize;
    let y: usize = d2 as usize;
    let addr: usize = nnn as usize;
    let byte: u8 = kk as u8;
    match (d0, d1, d2, d3) {
        (0x0, 0x0, 0xE, 0x0) => Some(Instruction::Cls),
        (0x0, 0x0, 0xE, 0xE) => Some(Instruction::Ret),
        (0x0, _, _, _) => Some(Instruction::Sys { addr }),
        (0x1, _, _, _) => Some(Instruction::Jp { addr }),
        (0x2, _, _, _) => Some(Instruction::Call { addr }),
        (0x3, _, _, _) => Some(Instruction::SeByte { x, byte }),
        (0x4, _, _, _) => Some(Instruction::SneByte { x, byte }),
        (0x5, _, _, 0x0) => Some(Instruction::SeReg { x, y }),
        (0x6, _, _, _) => Some(Instruction::LdByte { x, byte }),
        (0x7, _, _, _) => Some(Instruction::AddByte { x, byte }),
        (0x8, _, _, 0x0) => Some(Instruction::LdReg { x, y }),
        (0x8, _, _, 0x1) => Some(Instruction::Or { x, y }),
        (0x8, _, _, 0x2) => Some(Instruction::And { x, y }),
        (0x8, _, _, 0x3) => Some(Instruction::Xor { x, y }),
        (0x8, _, _, 0x4) => Some(Instruction::AddReg { x, y }),
        (0x8, _, _, 0x5) => Some(Instruction::Sub { x, y }),
        (0x8, _, _, 0x6) => Some(Instruction::Shr { x, y }),
        (0x8, _, _, 0x7) => Some(Instruction::Subn { x, y }),
        (0x8, _, _, 0xE) => Some(Instruction::Shl { x, y }),
        (0x9, _, _, 0x0) => Some(Instruction::SneReg { x, y }),
        (0xA, _, _, _) => Some(Instruction::LdI { addr }),
        (0xB, _, _, _) => Some(Instruction::JpV0 { addr }),
        (0xC, _, _, _) => Some(Instruction::Rnd { x, byte }),
        (0xD, _, _, _) => Some(Instruction::Drw { x, y, rows: d3 as u8 }),
        (0xE, _, 0x9, 0xE) => Some(Instruction::Skp { x }),
        (0xE, _, 0xA, 0x1) => Some(Instruction::Sknp { x }),
        (0xF, _, 0x0, 0x7) => Some(Instruction::LdVxDt { x }),
        (0xF, _, 0x0, 0xA) => Some(Instruction::LdVxK { x }),
        (0xF, _, 0x1, 0x5) => Some(Instruction::LdDtVx { x }),
        (0xF, _, 0x1, 0x8) => Some(Instruction::LdStVx { x }),
        (0xF, _, 0x1, 0xE) => Some(Instruction::AddI { x }),
        (0xF, _, 0x2, 0x9) => Some(Instruction::LdF { x }),
        (0xF, _, 0x3, 0x3) => Some(Instruction::LdB { x }),
        (0xF, _, 0x5, 0x5) => Some(Instruction::StoreRegs { x }),
        (0xF, _, 0x6, 0x5) => Some(Instruction::LoadRegs { x }),
        _ => None,
    }
}

} // verus!
