use vstd::prelude::*;
use crate::decode::{decode, Instruction};

verus! {

/// A recognized CHIP-8 instruction with its operands.
#[derive(Clone, Copy, Debug, PartialEq, Eq, Structural)]
pub enum Opcode {
    /// `00E0`: clear the screen.
    Clear,
    /// `00EE`: return from a subroutine.
    Return,
    /// `1NNN`: jump to `nnn`.
    Jump { nnn: u16 },
    /// `2NNN`: call the subroutine at `nnn`.
    Call { nnn: u16 },
    /// `3XKK`: skip the next instruction if `Vx == kk`.
    SkipEqImm { x: u8, kk: u8 },
    /// `4XKK`: skip the next instruction if `Vx != kk`.
    SkipNeImm { x: u8, kk: u8 },
    /// `5XY0`: skip the next instruction if `Vx == Vy`.
    SkipEqReg { x: u8, y: u8 },
    /// `6XKK`: `Vx = kk`.
    LoadImm { x: u8, kk: u8 },
    /// `7XKK`: `Vx += kk`, without touching the flag.
    AddImm { x: u8, kk: u8 },
    /// `8XY0`: `Vx = Vy`.
    Move { x: u8, y: u8 },
    /// `8XY1`: `Vx |= Vy`.
    Or { x: u8, y: u8 },
    /// `8XY2`: `Vx &= Vy`.
    And { x: u8, y: u8 },
    /// `8XY3`: `Vx ^= Vy`.
    Xor { x: u8, y: u8 },
    /// `8XY4`: `Vx += Vy`, the flag holding the carry.
    AddReg { x: u8, y: u8 },
    /// `8XY5`: `Vx -= Vy`, the flag set when nothing is borrowed.
    Sub { x: u8, y: u8 },
    /// `8XY6`: `Vx = Vy >> 1`, the flag holding the bit shifted out.
    ShiftRight { x: u8, y: u8 },
    /// `8XY7`: `Vx = Vy - Vx`, the flag set when nothing is borrowed.
    SubReversed { x: u8, y: u8 },
    /// `8XYE`: `Vx = Vy << 1`, the flag holding the bit shifted out.
    ShiftLeft { x: u8, y: u8 },
    /// `9XY0`: skip the next instruction if `Vx != Vy`.
    SkipNeReg { x: u8, y: u8 },
    /// `ANNN`: `I = nnn`.
    LoadIndex { nnn: u16 },
    /// `BNNN`: jump to `nnn + V0`.
    JumpOffset { nnn: u16 },
    /// `CXKK`: `Vx = random & kk`.
    Random { x: u8, kk: u8 },
    /// `DXYN`: draw the `n`-byte sprite at `I` at `(Vx, Vy)`.
    Draw { x: u8, y: u8, n: u8 },
    /// `EX9E`: skip the next instruction if key `Vx` is pressed.
    SkipKeyPressed { x: u8 },
    /// `EXA1`: skip the next instruction if key `Vx` is not pressed.
    SkipKeyReleased { x: u8 },
    /// `FX07`: `Vx = DT`.
    ReadDelay { x: u8 },
    /// `FX0A`: wait for a key press and store the key in `Vx`.
    WaitKey { x: u8 },
    /// `FX15`: `DT = Vx`.
    SetDelay { x: u8 },
    /// `FX18`: `ST = Vx`.
    SetSound { x: u8 },
    /// `FX1E`: `I += Vx`.
    AddIndex { x: u8 },
    /// `FX29`: `I` = address of the glyph of digit `Vx`.
    FontGlyph { x: u8 },
    /// `FX33`: store the decimal digits of `Vx` at `I`, `I + 1`, `I + 2`.
    StoreBcd { x: u8 },
    /// `FX55`: store `V0..=Vx` from `I` on; `I` advances past them.
    StoreRegisters { x: u8 },
    /// `FX65`: load `V0..=Vx` from `I` on; `I` advances past them.
    LoadRegisters { x: u8 },
}

/// The opcode that the fields of an instruction stand for, if any.
pub open spec fn opcode_of(ins: Instruction) -> Option<Opcode> {
    let (t, x, y, n, kk, nnn) = (ins.tag, ins.x, ins.y, ins.n, ins.kk, ins.nnn);
    if t == 0 && nnn == 0x0E0 {
        Some(Opcode::Clear)
    } else if t == 0 && nnn == 0x0EE {
        Some(Opcode::Return)
    } else if t == 1 {
        Some(Opcode::Jump { nnn })
    } else if t == 2 {
        Some(Opcode::Call { nnn })
    } else if t == 3 {
        Some(Opcode::SkipEqImm { x, kk })
    } else if t == 4 {
        Some(Opcode::SkipNeImm { x, kk })
    } else if t == 5 && n == 0 {
        Some(Opcode::SkipEqReg { x, y })
    } else if t == 6 {
        Some(Opcode::LoadImm { x, kk })
    } else if t == 7 {
        Some(Opcode::AddImm { x, kk })
    } else if t == 8 && n == 0 {
        Some(Opcode::Move { x, y })
    } else if t == 8 && n == 1 {
        Some(Opcode::Or { x, y })
    } else if t == 8 && n == 2 {
        Some(Opcode::And { x, y })
    } else if t == 8 && n == 3 {
        Some(Opcode::Xor { x, y })
    } else if t == 8 && n == 4 {
        Some(Opcode::AddReg { x, y })
    } else if t == 8 && n == 5 {
        Some(Opcode::Sub { x, y })
    } else if t == 8 && n == 6 {
        Some(Opcode::ShiftRight { x, y })
    } else if t == 8 && n == 7 {
        Some(Opcode::SubReversed { x, y })
    } else if t == 8 && n == 0xE {
        Some(Opcode::ShiftLeft { x, y })
    } else if t == 9 && n == 0 {
        Some(Opcode::SkipNeReg { x, y })
    } else if t == 0xA {
        Some(Opcode::LoadIndex { nnn })
    } else if t == 0xB {
        Some(Opcode::JumpOffset { nnn })
    } else if t == 0xC {
        Some(Opcode::Random { x, kk })
    } else if t == 0xD {
        Some(Opcode::Draw { x, y, n })
    } else if t == 0xE && kk == 0x9E {
        Some(Opcode::SkipKeyPressed { x })
    } else if t == 0xE && kk == 0xA1 {
        Some(Opcode::SkipKeyReleased { x })
    } else if t == 0xF && kk == 0x07 {
        Some(Opcode::ReadDelay { x })
    } else if t == 0xF && kk == 0x0A {
        Some(Opcode::WaitKey { x })
    } else if t == 0xF && kk == 0x15 {
        Some(Opcode::SetDelay { x })
    } else if t == 0xF && kk == 0x18 {
        Some(Opcode::SetSound { x })
    } else if t == 0xF && kk == 0x1E {
        Some(Opcode::AddIndex { x })
    } else if t == 0xF && kk == 0x29 {
        Some(Opcode::FontGlyph { x })
    } else if t == 0xF && kk == 0x33 {
        Some(Opcode::StoreBcd { x })
    } else if t == 0xF && kk == 0x55 {
        Some(Opcode::StoreRegisters { x })
    } else if t == 0xF && kk == 0x65 {
        Some(Opcode::LoadRegisters { x })
    } else {
        None
    }
}

/// The opcode that an instruction word stands for, if any.
pub open spec fn opcode_of_word(word: u16) -> Option<Opcode> {
    opcode_of(Instruction::spec_fields(word))
}

impl Opcode {
    /// Register indices below 16, a sprite height below 16, an address below 4096.
    pub open spec fn wf(self) -> bool {
        match self {
            Opcode::Jump { nnn } | Opcode::Call { nnn } | Opcode::LoadIndex { nnn }
            | Opcode::JumpOffset { nnn } => nnn < 4096,
            Opcode::SkipEqImm { x, .. } | Opcode::SkipNeImm { x, .. } | Opcode::LoadImm { x, .. }
            | Opcode::AddImm { x, .. } | Opcode::Random { x, .. } => x < 16,
            Opcode::SkipEqReg { x, y } | Opcode::Move { x, y } | Opcode::Or { x, y }
            | Opcode::And { x, y } | Opcode::Xor { x, y } | Opcode::AddReg { x, y }
            | Opcode::Sub { x, y } | Opcode::ShiftRight { x, y } | Opcode::SubReversed { x, y }
            | Opcode::ShiftLeft { x, y } | Opcode::SkipNeReg { x, y } => x < 16 && y < 16,
            Opcode::Draw { x, y, n } => x < 16 && y < 16 && n < 16,
            Opcode::SkipKeyPressed { x } | Opcode::SkipKeyReleased { x } | Opcode::ReadDelay { x }
            | Opcode::WaitKey { x } | Opcode::SetDelay { x } | Opcode::SetSound { x }
            | Opcode::AddIndex { x } | Opcode::FontGlyph { x } | Opcode::StoreBcd { x }
            | Opcode::StoreRegisters { x } | Opcode::LoadRegisters { x } => x < 16,
            Opcode::Clear | Opcode::Return => true,
        }
    }

    /// Opcodes after which the next instruction is not the one that follows:
    /// jumps, calls, returns and skips.
    pub open spec fn spec_ends_block(self) -> bool {
        match self {
            Opcode::Return | Opcode::Jump { .. } | Opcode::Call { .. } | Opcode::SkipEqImm { .. }
            | Opcode::SkipNeImm { .. } | Opcode::SkipEqReg { .. } | Opcode::SkipNeReg { .. }
            | Opcode::JumpOffset { .. } | Opcode::SkipKeyPressed { .. }
            | Opcode::SkipKeyReleased { .. } => true,
            _ => false,
        }
    }

    /// The skips: both the next instruction and the one after it may follow.
    pub open spec fn spec_is_skip(self) -> bool {
        match self {
            Opcode::SkipEqImm { .. } | Opcode::SkipNeImm { .. } | Opcode::SkipEqReg { .. }
            | Opcode::SkipNeReg { .. } | Opcode::SkipKeyPressed { .. }
            | Opcode::SkipKeyReleased { .. } => true,
            _ => false,
        }
    }

    /// Whether control leaves the straight line after this opcode.
    pub fn ends_block(&self) -> (r: bool)
        ensures
            r == self.spec_ends_block(),
    {
        match self {
            Opcode::Return | Opcode::Jump { .. } | Opcode::Call { .. } | Opcode::SkipEqImm { .. }
            | Opcode::SkipNeImm { .. } | Opcode::SkipEqReg { .. } | Opcode::SkipNeReg { .. }
            | Opcode::JumpOffset { .. } | Opcode::SkipKeyPressed { .. }
            | Opcode::SkipKeyReleased { .. } => true,
            _ => false,
        }
    }

    /// Whether this opcode is a conditional skip.
    pub fn is_skip(&self) -> (r: bool)
        ensures
            r == self.spec_is_skip(),
    {
        match self {
            Opcode::SkipEqImm { .. } | Opcode::SkipNeImm { .. } | Opcode::SkipEqReg { .. }
            | Opcode::SkipNeReg { .. } | Opcode::SkipKeyPressed { .. }
            | Opcode::SkipKeyReleased { .. } => true,
            _ => false,
        }
    }

    /// Recognizes the opcode of an instruction word; `None` for a word that
    /// is no CHIP-8 instruction.
    pub fn from_word(word: u16) -> (r: Option<Opcode>)
        ensures
            r == opcode_of_word(word),
            r matches Some(op) ==> op.wf(),
    {
        let ins = decode(word);
        let (t, x, y, n, kk, nnn) = (ins.tag, ins.x, ins.y, ins.n, ins.kk, ins.nnn);
        if t == 0 && nnn == 0x0E0 {
            Some(Opcode::Clear)
        } else if t == 0 && nnn == 0x0EE {
            Some(Opcode::Return)
        } else if t == 1 {
            Some(Opcode::Jump { nnn })
        } else if t == 2 {
            Some(Opcode::Call { nnn })
        } else if t == 3 {
            Some(Opcode::SkipEqImm { x, kk })
        } else if t == 4 {
            Some(Opcode::SkipNeImm { x, kk })
        } else if t == 5 && n == 0 {
            Some(Opcode::SkipEqReg { x, y })
        } else if t == 6 {
            Some(Opcode::LoadImm { x, kk })
        } else if t == 7 {
            Some(Opcode::AddImm { x, kk })
        } else if t == 8 && n == 0 {
            Some(Opcode::Move { x, y })
        } else if t == 8 && n == 1 {
            Some(Opcode::Or { x, y })
        } else if t == 8 && n == 2 {
            Some(Opcode::And { x, y })
        } else if t == 8 && n == 3 {
            Some(Opcode::Xor { x, y })
        } else if t == 8 && n == 4 {
            Some(Opcode::AddReg { x, y })
        } else if t == 8 && n == 5 {
            Some(Opcode::Sub { x, y })
        } else if t == 8 && n == 6 {
            Some(Opcode::ShiftRight { x, y })
        } else if t == 8 && n == 7 {
            Some(Opcode::SubReversed { x, y })
        } else if t == 8 && n == 0xE {
            Some(Opcode::ShiftLeft { x, y })
        } else if t == 9 && n == 0 {
            Some(Opcode::SkipNeReg { x, y })
        } else if t == 0xA {
            Some(Opcode::LoadIndex { nnn })
        } else if t == 0xB {
            Some(Opcode::JumpOffset { nnn })
        } else if t == 0xC {
            Some(Opcode::Random { x, kk })
        } else if t == 0xD {
            Some(Opcode::Draw { x, y, n })
        } else if t == 0xE && kk == 0x9E {
            Some(Opcode::SkipKeyPressed { x })
        } else if t == 0xE && kk == 0xA1 {
            Some(Opcode::SkipKeyReleased { x })
        } else if t == 0xF && kk == 0x07 {
            Some(Opcode::ReadDelay { x })
        } else if t == 0xF && kk == 0x0A {
            Some(Opcode::WaitKey { x })
        } else if t == 0xF && kk == 0x15 {
            Some(Opcode::SetDelay { x })
        } else if t == 0xF && kk == 0x18 {
            Some(Opcode::SetSound { x })
        } else if t == 0xF && kk == 0x1E {
            Some(Opcode::AddIndex { x })
        } else if t == 0xF && kk == 0x29 {
            Some(Opcode::FontGlyph { x })
        } else if t == 0xF && kk == 0x33 {
            Some(Opcode::StoreBcd { x })
        } else if t == 0xF && kk == 0x55 {
            Some(Opcode::StoreRegisters { x })
        } else if t == 0xF && kk == 0x65 {
            Some(Opcode::LoadRegisters { x })
        } else {
            None
        }
    }
}

} // verus!
