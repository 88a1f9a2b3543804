//! The instruction table: how a 16-bit word splits into nibbles and which
//! instruction each nibble pattern selects.

use vstd::prelude::*;

verus! {

/// One decoded instruction. Register operands are nibbles (0 to 15).
#[derive(Clone, Copy, Debug, PartialEq, Eq, Structural)]
pub enum Instruction {
    /// `0000`: do nothing.
    Nop,
    /// `000C`: set every pixel to colour 0.
    ClearScreen,
    /// `1NNN`: jump to `addr`.
    Jump { addr: u16 },
    /// `2XNN`: `S[x] := nn`.
    SetImm { x: u8, nn: u8 },
    /// `3XNN`: `S[x] := S[x] + nn`, wrapping.
    AddImm { x: u8, nn: u8 },
    /// `4XNN`: `S[x] := S[x] - nn`, wrapping.
    SubImm { x: u8, nn: u8 },
    /// `50YZ`: `S[y] := S[z]`.
    Move { y: u8, z: u8 },
    /// `51YZ`: `S[y] := S[y] + S[z]`, wrapping.
    AddReg { y: u8, z: u8 },
    /// `52YZ`: `S[y] := S[y] - S[z]`, wrapping.
    SubReg { y: u8, z: u8 },
    /// `53YZ`: `S[y] := S[y] * S[z]`, wrapping.
    MulReg { y: u8, z: u8 },
    /// `54YZ`: `S[y] := S[y] / S[z]`; a zero divisor is a fault.
    DivReg { y: u8, z: u8 },
    /// `55YZ`: skip the next instruction if `S[y] == S[z]`.
    SkipEq { y: u8, z: u8 },
    /// `56YZ`: skip if `S[y] != S[z]`.
    SkipNe { y: u8, z: u8 },
    /// `57YZ`: skip if `S[y] > S[z]`.
    SkipGt { y: u8, z: u8 },
    /// `58YZ`: skip if `S[y]` lies before `S[z]` and overlaps it.
    SkipOverlapBefore { y: u8, z: u8 },
    /// `59YZ`: skip if `S[y]` overlaps the far edge of `S[z]`.
    SkipOverlapAfter { y: u8, z: u8 },
    /// `5AYZ`: skip if either overlap test holds or the registers are equal.
    SkipCollide { y: u8, z: u8 },
    /// `600N`: font colour := `n`.
    SetColor { n: u8 },
    /// `610N`: font colour := `S[n] mod 16`.
    SetColorFromReg { n: u8 },
    /// `700N`: `S[n]` := a random value below 16.
    Random { n: u8 },
    /// `710N`: loop point := `S[n] mod 16`.
    SetLoopFromReg { n: u8 },
    /// `800N`: loop point := `n`.
    SetLoop { n: u8 },
    /// `900N`: skip if key `S[n]` is pressed.
    SkipKey { n: u8 },
    /// `910N`: skip if key `S[n]` is not pressed.
    SkipNotKey { n: u8 },
    /// `AXYZ`: if `S[y] != S[z]`, advance the program counter by `2 * count`.
    SkipRel { count: u8, y: u8, z: u8 },
    /// `DXYZ`: draw sprite `sprite` at `(S[y], S[z])`.
    DrawSprite { sprite: u8, y: u8, z: u8 },
    /// `EXYZ`: draw the decimal digits of `S[x]` at `(S[y], S[z])`.
    DrawNumber { x: u8, y: u8, z: u8 },
    /// `FXYZ`: draw the font glyph for digit `S[x]` at `(S[y], S[z])`.
    DrawDigit { x: u8, y: u8, z: u8 },
}

/// The most significant nibble of `op`.
pub open spec fn nibble1(op: u16) -> u8 {
    (op / 0x1000) as u8
}

/// The second nibble of `op`.
pub open spec fn nibble2(op: u16) -> u8 {
    ((op / 0x100) % 0x10) as u8
}

/// The third nibble of `op`.
pub open spec fn nibble3(op: u16) -> u8 {
    ((op / 0x10) % 0x10) as u8
}

/// The least significant nibble of `op`.
pub open spec fn nibble4(op: u16) -> u8 {
    (op % 0x10) as u8
}

/// The low byte of `op`.
pub open spec fn low_byte(op: u16) -> u8 {
    (op % 0x100) as u8
}

/// The low twelve bits of `op`.
pub open spec fn low_address(op: u16) -> u16 {
    (op % 0x1000) as u16
}

/// The instruction word whose four nibbles are `d1` to `d4`, most significant
/// first.
pub open spec fn word(d1: u8, d2: u8, d3: u8, d4: u8) -> u16 {
    (d1 * 0x1000 + d2 * 0x100 + d3 * 0x10 + d4) as u16
}

/// The instruction word with first nibble `d1`, second nibble `x` and low
/// byte `nn`.
pub open spec fn word_with_byte(d1: u8, x: u8, nn: u8) -> u16 {
    (d1 * 0x1000 + x * 0x100 + nn) as u16
}

/// The instruction that `op` selects, or `None` where the table has no row
/// for it.
pub open spec fn spec_decode(op: u16) -> Option<Instruction> {
    let d1 = nibble1(op);
    let d2 = nibble2(op);
    let d3 = nibble3(op);
    let d4 = nibble4(op);
    if d1 == 0 {
        if d2 == 0 && d3 == 0 && d4 == 0 {
            Some(Instruction::Nop)
        } else if d2 == 0 && d3 == 0 && d4 == 0xC {
            Some(Instruction::ClearScreen)
        } else {
            None
        }
    } else if d1 == 1 {
        Some(Instruction::Jump { addr: low_address(op) })
    } else if d1 == 2 {
        Some(Instruction::SetImm { x: d2, nn: low_byte(op) })
    } else if d1 == 3 {
        Some(Instruction::AddImm { x: d2, nn: low_byte(op) })
    } else if d1 == 4 {
        Some(Instruction::SubImm { x: d2, nn: low_byte(op) })
    } else if d1 == 5 {
        if d2 == 0 {
            Some(Instruction::Move { y: d3, z: d4 })
        } else if d2 == 1 {
            Some(Instruction::AddReg { y: d3, z: d4 })
        } else if d2 == 2 {
            Some(Instruction::SubReg { y: d3, z: d4 })
        } else if d2 == 3 {
            Some(Instruction::MulReg { y: d3, z: d4 })
        } else if d2 == 4 {
            Some(Instruction::DivReg { y: d3, z: d4 })
        } else if d2 == 5 {
            Some(Instruction::SkipEq { y: d3, z: d4 })
        } else if d2 == 6 {
            Some(Instruction::SkipNe { y: d3, z: d4 })
        } else if d2 == 7 {
            Some(Instruction::SkipGt { y: d3, z: d4 })
        } else if d2 == 8 {
            Some(Instruction::SkipOverlapBefore { y: d3, z: d4 })
        } else if d2 == 9 {
            Some(Instruction::SkipOverlapAfter { y: d3, z: d4 })
        } else if d2 == 0xA {
            Some(Instruction::SkipCollide { y: d3, z: d4 })
        } else {
            None
        }
    } else if d1 == 6 {
        if d2 == 0 && d3 == 0 {
            Some(Instruction::SetColor { n: d4 })
        } else if d2 == 1 && d3 == 0 {
            Some(Instruction::SetColorFromReg { n: d4 })
        } else {
            None
        }
    } else if d1 == 7 {
        if d2 == 0 && d3 == 0 {
            Some(Instruction::Random { n: d4 })
        } else if d2 == 1 && d3 == 0 {
            Some(Instruction::SetLoopFromReg { n: d4 })
        } else {
            None
        }
    } else if d1 == 8 {
        if d2 == 0 && d3 == 0 {
            Some(Instruction::SetLoop { n: d4 })
        } else {
            None
        }
    } else if d1 == 9 {
        if d2 == 0 && d3 == 0 {
            Some(Instruction::SkipKey { n: d4 })
        } else if d2 == 1 && d3 == 0 {
            Some(Instruction::SkipNotKey { n: d4 })
        } else {
            None
        }
    } else if d1 == 0xA {
        Some(Instruction::SkipRel { count: d2, y: d3, z: d4 })
    } else if d1 == 0xD {
        Some(Instruction::DrawSprite { sprite: d2, y: d3, z: d4 })
    } else if d1 == 0xE {
        Some(Instruction::DrawNumber { x: d2, y: d3, z: d4 })
    } else if d1 == 0xF {
        Some(Instruction::DrawDigit { x: d2, y: d3, z: d4 })
    } else {
        None
    }
}

impl Instruction {
    /// Every register operand of the instruction names one of the sixteen
    /// registers, and a jump target fits in twelve bits.
    pub open spec fn operands_in_range(self) -> bool {
        match self {
            Instruction::Nop | Instruction::ClearScreen => true,
            Instruction::Jump { addr } => addr < 0x1000,
            Instruction::SetImm { x, .. }
            | Instruction::AddImm { x, .. }
            | Instruction::SubImm { x, .. } => x < 16,
            Instruction::Move { y, z }
            | Instruction::AddReg { y, z }
            | Instruction::SubReg { y, z }
            | Instruction::MulReg { y, z }
            | Instruction::DivReg { y, z }
            | Instruction::SkipEq { y, z }
            | Instruction::SkipNe { y, z }
            | Instruction::SkipGt { y, z }
            | Instruction::SkipOverlapBefore { y, z }
            | Instruction::SkipOverlapAfter { y, z }
            | Instruction::SkipCollide { y, z } => y < 16 && z < 16,
            Instruction::SetColor { n }
            | Instruction::SetColorFromReg { n }
            | Instruction::Random { n }
            | Instruction::SetLoopFromReg { n }
            | Instruction::SetLoop { n }
            | Instruction::SkipKey { n }
            | Instruction::SkipNotKey { n } => n < 16,
            Instruction::SkipRel { count, y, z } => count < 16 && y < 16 && z < 16,
            Instruction::DrawSprite { sprite, y, z } => sprite < 16 && y < 16 && z < 16,
            Instruction::DrawNumber { x, y, z } | Instruction::DrawDigit { x, y, z } => x < 16
                && y < 16 && z < 16,
        }
    }
}

/// Splits `op` into its four nibbles, most significant first, and selects
/// the instruction by exact match on them.
pub fn decode(op: u16) -> (r: Option<Instruction>)
    ensures
        r == spec_decode(op),
        r matches Some(ins) ==> ins.operands_in_range(),
{
    let d1 = ((op & 0xF000) >> 12) as u8;
    let d2 = ((op & 0x0F00) >> 8) as u8;
    let d3 = ((op & 0x00F0) >> 4) as u8;
    let d4 = (op & 0x000F) as u8;
    let nn = (op & 0x00FF) as u8;
    let nnn = op & 0x0FFF;
    proof {
        assert((op & 0xF000) >> 12 == op / 0x1000) by (bit_vector);
        assert((op & 0x0F00) >> 8 == (op / 0x100) % 0x10) by (bit_vector);
        assert((op & 0x00F0) >> 4 == (op / 0x10) % 0x10) by (bit_vector);
        assert(op & 0x000F == op % 0x10) by (bit_vector);
        assert(op & 0x00FF == op % 0x100) by (bit_vector);
        assert(op & 0x0FFF == op % 0x1000) by (bit_vector);
    }
    match (d1, d2, d3, d4) {
        (0, 0, 0, 0) => Some(Instruction::Nop),
        (0, 0, 0, 0xC) => Some(Instruction::ClearScreen),
        (0x1, _, _, _) => Some(Instruction::Jump { addr: nnn }),
        (0x2, _, _, _) => Some(Instruction::SetImm { x: d2, nn }),
        (0x3, _, _, _) => Some(Instruction::AddImm { x: d2, nn }),
        (0x4, _, _, _) => Some(Instruction::SubImm { x: d2, nn }),
        (0x5, 0x0, _, _) => Some(Instruction::Move { y: d3, z: d4 }),
        (0x5, 0x1, _, _) => Some(Instruction::AddReg { y: d3, z: d4 }),
        (0x5, 0x2, _, _) => Some(Instruction::SubReg { y: d3, z: d4 }),
        (0x5, 0x3, _, _) => Some(Instruction::MulReg { y: d3, z: d4 }),
        (0x5, 0x4, _, _) => Some(Instruction::DivReg { y: d3, z: d4 }),
        (0x5, 0x5, _, _) => Some(Instruction::SkipEq { y: d3, z: d4 }),
        (0x5, 0x6, _, _) => Some(Instruction::SkipNe { y: d3, z: d4 }),
        (0x5, 0x7, _, _) => Some(Instruction::SkipGt { y: d3, z: d4 }),
        (0x5, 0x8, _, _) => Some(Instruction::SkipOverlapBefore { y: d3, z: d4 }),
        (0x5, 0x9, _, _) => Some(Instruction::SkipOverlapAfter { y: d3, z: d4 }),
        (0x5, 0xA, _, _) => Some(Instruction::SkipCollide { y: d3, z: d4 }),
        (0x6, 0x0, 0x0, _) => Some(Instruction::SetColor { n: d4 }),
        (0x6, 0x1, 0x0, _) => Some(Instruction::SetColorFromReg { n: d4 }),
        (0x7, 0x0, 0x0, _) => Some(Instruction::Random { n: d4 }),
        (0x7, 0x1, 0x0, _) => Some(Instruction::SetLoopFromReg { n: d4 }),
        (0x8, 0x0, 0x0, _) => Some(Instruction::SetLoop { n: d4 }),
        (0x9, 0x0, 0x0, _) => Some(Instruction::SkipKey { n: d4 }),
        (0x9, 0x1, 0x0, _) => Some(Instruction::SkipNotKey { n: d4 }),
        (0xA, _, _, _) => Some(Instruction::SkipRel { count: d2, y: d3, z: d4 }),
        (0xD, _, _, _) => Some(Instruction::DrawSprite { sprite: d2, y: d3, z: d4 }),
        (0xE, _, _, _) => Some(Instruction::DrawNumber { x: d2, y: d3, z: d4 }),
        (0xF, _, _, _) => Some(Instruction::DrawDigit { x: d2, y: d3, z: d4 }),
        _ => None,
    }
}

} // verus!
