//! Instruction words and their decoding.
//!
//! A word is sixteen bits. Its top four bits select a group; within the
//! groups 0, 8, E and F the low four or eight bits select the operation.
//! The remaining bits are operands: `x` and `y` name registers, `kk` is a
//! byte, `addr` a twelve-bit address and `n` a four-bit count.

use vstd::prelude::*;

verus! {

/// One decoded instruction.
#[derive(Clone, Copy, Debug, PartialEq, Eq, Structural)]
pub enum Instruction {
    /// `00E0`: turn every pixel off.
    ClearScreen,
    /// `00EE`: return from a subroutine.
    Return,
    /// `1nnn`: continue at `addr`.
    Jump { addr: u16 },
    /// `2nnn`: call the subroutine at `addr`.
    Call { addr: u16 },
    /// `3xkk`: skip the next instruction if Vx equals `kk`.
    SkipEqImm { x: u8, kk: u8 },
    /// `4xkk`: skip the next instruction if Vx differs from `kk`.
    SkipNeImm { x: u8, kk: u8 },
    /// `5xy_`: skip the next instruction if Vx equals Vy.
    SkipEqReg { x: u8, y: u8 },
    /// `6xkk`: Vx = `kk`.
    LoadImm { x: u8, kk: u8 },
    /// `7xkk`: Vx = Vx + `kk`, wrapping, no flag.
    AddImm { x: u8, kk: u8 },
    /// `8xy0`: Vx = Vy.
    LoadReg { x: u8, y: u8 },
    /// `8xy1`: Vx = Vx or Vy.
    Or { x: u8, y: u8 },
    /// `8xy2`: Vx = Vx and Vy.
    And { x: u8, y: u8 },
    /// `8xy3`: Vx = Vx xor Vy.
    Xor { x: u8, y: u8 },
    /// `8xy4`: Vx = Vx + Vy, VF = carry.
    AddReg { x: u8, y: u8 },
    /// `8xy5`: Vx = Vx - Vy, VF = no borrow.
    SubReg { x: u8, y: u8 },
    /// `8x_6`: VF = lowest bit of Vx, Vx = Vx >> 1.
    ShiftRight { x: u8 },
    /// `8xy7`: Vx = Vy - Vx, VF = no borrow.
    SubnReg { x: u8, y: u8 },
    /// `8x_E`: VF = highest bit of Vx, Vx = Vx << 1.
    ShiftLeft { x: u8 },
    /// `9xy_`: skip the next instruction if Vx differs from Vy.
    SkipNeReg { x: u8, y: u8 },
    /// `Annn`: I = `addr`.
    LoadIndex { addr: u16 },
    /// `Bnnn`: continue at `addr` + V0.
    JumpOffset { addr: u16 },
    /// `Cxkk`: Vx = random byte and `kk`.
    Random { x: u8, kk: u8 },
    /// `Dxyn`: draw the `n`-row sprite at I with its corner at (Vx, Vy).
    Draw { x: u8, y: u8, n: u8 },
    /// `Ex9E`: skip the next instruction if the key numbered Vx is down.
    SkipKeyPressed { x: u8 },
    /// `ExA1`: skip the next instruction if the key numbered Vx is up.
    SkipKeyNotPressed { x: u8 },
    /// `Fx07`: Vx = delay timer.
    LoadDelay { x: u8 },
    /// `Fx0A`: wait for a key and put its number in Vx.
    WaitKey { x: u8 },
    /// `Fx15`: delay timer = Vx.
    SetDelay { x: u8 },
    /// `Fx18`: sound timer = Vx.
    SetSound { x: u8 },
    /// `Fx1E`: I = I + Vx.
    AddIndex { x: u8 },
    /// `Fx29`: I = address of the glyph for the digit in Vx.
    LoadFont { x: u8 },
    /// `Fx33`: store the three decimal digits of Vx at I, I+1, I+2.
    StoreBcd { x: u8 },
    /// `Fx55`: store V0 to Vx in memory from I on.
    StoreRegisters { x: u8 },
    /// `Fx65`: load V0 to Vx from memory from I on.
    LoadRegisters { x: u8 },
}

/// The group of a word: its top four bits.
pub open spec fn group_of(opcode: u16) -> int {
    opcode as int / 0x1000
}

/// The operand `x`: the low four bits of the high byte.
pub open spec fn x_of(opcode: u16) -> u8 {
    ((opcode as int / 0x100) % 0x10) as u8
}

/// The operand `y`: the high four bits of the low byte.
pub open spec fn y_of(opcode: u16) -> u8 {
    ((opcode as int / 0x10) % 0x10) as u8
}

/// The operand `n`: the low four bits.
pub open spec fn n_of(opcode: u16) -> u8 {
    (opcode as int % 0x10) as u8
}

/// The operand `kk`: the low byte.
pub open spec fn kk_of(opcode: u16) -> u8 {
    (opcode as int % 0x100) as u8
}

/// The operand `addr`: the low twelve bits.
pub open spec fn addr_of(opcode: u16) -> u16 {
    (opcode as int % 0x1000) as u16
}

/// The instruction a word stands for, or `None` if it matches no pattern.
pub open spec fn spec_decode(opcode: u16) -> Option<Instruction> {
    let x = x_of(opcode);
    let y = y_of(opcode);
    let n = n_of(opcode);
    let kk = kk_of(opcode);
    let addr = addr_of(opcode);
    let group = group_of(opcode);
    if group == 0x0 {
        if kk == 0xE0 {
            Some(Instruction::ClearScreen)
        } else if kk == 0xEE {
            Some(Instruction::Return)
        } else {
            None
        }
    } else if group == 0x1 {
        Some(Instruction::Jump { addr })
    } else if group == 0x2 {
        Some(Instruction::Call { addr })
    } else if group == 0x3 {
        Some(Instruction::SkipEqImm { x, kk })
    } else if group == 0x4 {
        Some(Instruction::SkipNeImm { x, kk })
    } else if group == 0x5 {
        Some(Instruction::SkipEqReg { x, y })
    } else if group == 0x6 {
        Some(Instruction::LoadImm { x, kk })
    } else if group == 0x7 {
        Some(Instruction::AddImm { x, kk })
    } else if group == 0x8 {
        if n == 0x0 {
            Some(Instruction::LoadReg { x, y })
        } else if n == 0x1 {
            Some(Instruction::Or { x, y })
        } else if n == 0x2 {
            Some(Instruction::And { x, y })
        } else if n == 0x3 {
            Some(Instruction::Xor { x, y })
        } else if n == 0x4 {
            Some(Instruction::AddReg { x, y })
        } else if n == 0x5 {
            Some(Instruction::SubReg { x, y })
        } else if n == 0x6 {
            Some(Instruction::ShiftRight { x })
        } else if n == 0x7 {
            Some(Instruction::SubnReg { x, y })
        } else if n == 0xE {
            Some(Instruction::ShiftLeft { x })
        } else {
            None
        }
    } else if group == 0x9 {
        Some(Instruction::SkipNeReg { x, y })
    } else if group == 0xA {
        Some(Instruction::LoadIndex { addr })
    } else if group == 0xB {
        Some(Instruction::JumpOffset { addr })
    } else if group == 0xC {
        Some(Instruction::Random { x, kk })
    } else if group == 0xD {
        Some(Instruction::Draw { x, y, n })
    } else if group == 0xE {
        if kk == 0x9E {
            Some(Instruction::SkipKeyPressed { x })
        } else if kk == 0xA1 {
            Some(Instruction::SkipKeyNotPressed { x })
        } else {
            None
        }
    } else {
        if kk == 0x07 {
            Some(Instruction::LoadDelay { x })
        } else if kk == 0x0A {
            Some(Instruction::WaitKey { x })
        } else if kk == 0x15 {
            Some(Instruction::SetDelay { x })
        } else if kk == 0x18 {
            Some(Instruction::SetSound { x })
        } else if kk == 0x1E {
            Some(Instruction::AddIndex { x })
        } else if kk == 0x29 {
            Some(Instruction::LoadFont { x })
        } else if kk == 0x33 {
            Some(Instruction::StoreBcd { x })
        } else if kk == 0x55 {
            Some(Instruction::StoreRegisters { x })
        } else if kk == 0x65 {
            Some(Instruction::LoadRegisters { x })
        } else {
            None
        }
    }
}

impl Instruction {
    /// Every register operand names one of the sixteen registers, every
    /// address has twelve bits and every row count four.
    pub open spec fn operands_in_range(self) -> bool {
        match self {
            Instruction::ClearScreen | Instruction::Return => true,
            Instruction::Jump { addr }
            | Instruction::Call { addr }
            | Instruction::LoadIndex { addr }
            | Instruction::JumpOffset { addr } => addr < 0x1000,
            Instruction::SkipEqImm { x, .. }
            | Instruction::SkipNeImm { x, .. }
            | Instruction::LoadImm { x, .. }
            | Instruction::AddImm { x, .. }
            | Instruction::Random { x, .. }
            | Instruction::ShiftRight { x }
            | Instruction::ShiftLeft { x }
            | Instruction::SkipKeyPressed { x }
            | Instruction::SkipKeyNotPressed { x }
            | Instruction::LoadDelay { x }
            | Instruction::WaitKey { x }
            | Instruction::SetDelay { x }
            | Instruction::SetSound { x }
            | Instruction::AddIndex { x }
            | Instruction::LoadFont { x }
            | Instruction::StoreBcd { x }
            | Instruction::StoreRegisters { x }
            | Instruction::LoadRegisters { x } => x < 16,
            Instruction::SkipEqReg { x, y }
            | Instruction::LoadReg { x, y }
            | Instruction::Or { x, y }
            | Instruction::And { x, y }
            | Instruction::Xor { x, y }
            | Instruction::AddReg { x, y }
            | Instruction::SubReg { x, y }
            | Instruction::SubnReg { x, y }
            | Instruction::SkipNeReg { x, y } => x < 16 && y < 16,
            Instruction::Draw { x, y, n } => x < 16 && y < 16 && n < 16,
        }
    }
}

/// Decodes one instruction word.
pub fn decode(opcode: u16) -> (decoded: Option<Instruction>)
    ensures
        decoded == spec_decode(opcode),
        decoded matches Some(instruction) ==> instruction.operands_in_range(),
{
    let x: u8 = ((opcode & 0x0F00) >> 8) as u8;
    let y: u8 = ((opcode & 0x00F0) >> 4) as u8;
    let n: u8 = (opcode & 0x000F) as u8;
    let kk: u8 = (opcode & 0x00FF) as u8;
    let addr: u16 = opcode & 0x0FFF;
    let group: u16 = opcode & 0xF000;
    proof {
        assert((opcode & 0x0F00) >> 8 == (opcode / 0x100) % 0x10) by (bit_vector);
        assert((opcode & 0x00F0) >> 4 == (opcode / 0x10) % 0x10) by (bit_vector);
        assert(opcode & 0x000F == opcode % 0x10) by (bit_vector);
        assert(opcode & 0x00FF == opcode % 0x100) by (bit_vector);
        assert(opcode & 0x0FFF == opcode % 0x1000) by (bit_vector);
        assert(opcode & 0xF000 == (opcode / 0x1000) * 0x1000) by (bit_vector);
    }
    match group {
        0x0000 => match kk {
            0xE0 => Some(Instruction::ClearScreen),
            0xEE => Some(Instruction::Return),
            _ => None,
        },
        0x1000 => Some(Instruction::Jump { addr }),
        0x2000 => Some(Instruction::Call { addr }),
        0x3000 => Some(Instruction::SkipEqImm { x, kk }),
        0x4000 => Some(Instruction::SkipNeImm { x, kk }),
        0x5000 => Some(Instruction::SkipEqReg { x, y }),
        0x6000 => Some(Instruction::LoadImm { x, kk }),
        0x7000 => Some(Instruction::AddImm { x, kk }),
        0x8000 => match n {
            0x0 => Some(Instruction::LoadReg { x, y }),
            0x1 => Some(Instruction::Or { x, y }),
            0x2 => Some(Instruction::And { x, y }),
            0x3 => Some(Instruction::Xor { x, y }),
            0x4 => Some(Instruction::AddReg { x, y }),
            0x5 => Some(Instruction::SubReg { x, y }),
            0x6 => Some(Instruction::ShiftRight { x }),
            0x7 => Some(Instruction::SubnReg { x, y }),
            0xE => Some(Instruction::ShiftLeft { x }),
            _ => None,
        },
        0x9000 => Some(Instruction::SkipNeReg { x, y }),
        0xA000 => Some(Instruction::LoadIndex { addr }),
        0xB000 => Some(Instruction::JumpOffset { addr }),
        0xC000 => Some(Instruction::Random { x, kk }),
        0xD000 => Some(Instruction::Draw { x, y, n }),
        0xE000 => match kk {
            0x9E => Some(Instruction::SkipKeyPressed { x }),
            0xA1 => Some(Instruction::SkipKeyNotPressed { x }),
            _ => None,
        },
        _ => match kk {
            0x07 => Some(Instruction::LoadDelay { x }),
            0x0A => Some(Instruction::WaitKey { x }),
            0x15 => Some(Instruction::SetDelay { x }),
            0x18 => Some(Instruction::SetSound { x }),
            0x1E => Some(Instruction::AddIndex { x }),
            0x29 => Some(Instruction::LoadFont { x }),
            0x33 => Some(Instruction::StoreBcd { x }),
            0x55 => Some(Instruction::StoreRegisters { x }),
            0x65 => Some(Instruction::LoadRegisters { x }),
            _ => None,
        },
    }
}

} // verus!
