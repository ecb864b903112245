use vstd::prelude::*;

verus! {

/// One decoded instruction: the operation class together with its operand
/// fields. A closed enumeration, so dispatch is checked exhaustive.
#[derive(Clone, Copy, Debug, PartialEq, Eq, Structural)]
pub enum Instruction {
    /// `00E0`: clear the display.
    ClearScreen,
    /// `00EE`: return from a subroutine.
    Return,
    /// `1NNN`: jump to `nnn`.
    Jump { nnn: u16 },
    /// `2NNN`: call the subroutine at `nnn`.
    Call { nnn: u16 },
    /// `3XNN`: skip the next instruction if `Vx == nn`.
    SkipEqImm { x: u8, nn: u8 },
    /// `4XNN`: skip the next instruction if `Vx != nn`.
    SkipNeImm { x: u8, nn: u8 },
    /// `5XY0`: skip the next instruction if `Vx == Vy`.
    SkipEqReg { x: u8, y: u8 },
    /// `6XNN`: set `Vx` to `nn`.
    SetImm { x: u8, nn: u8 },
    /// `7XNN`: add `nn` to `Vx`, wrapping; the flag is untouched.
    AddImm { x: u8, nn: u8 },
    /// `8XY0`: copy `Vy` into `Vx`.
    Copy { x: u8, y: u8 },
    /// `8XY1`: set `Vx` to `Vx | Vy`.
    Or { x: u8, y: u8 },
    /// `8XY2`: set `Vx` to `Vx & Vy`.
    And { x: u8, y: u8 },
    /// `8XY3`: set `Vx` to `Vx ^ Vy`.
    Xor { x: u8, y: u8 },
    /// `8XY4`: add `Vy` to `Vx`; `VF` reports the carry.
    Add { x: u8, y: u8 },
    /// `8XY5`: subtract `Vy` from `Vx`; `VF` is 1 when no borrow.
    Sub { x: u8, y: u8 },
    /// `8XY6`: shift `Vx` right once; `VF` gets its old low bit.
    ShiftRight { x: u8, y: u8 },
    /// `8XY7`: set `Vx` to `Vy - Vx`; `VF` is 1 when no borrow.
    SubFrom { x: u8, y: u8 },
    /// `8XYE`: shift `Vx` left once; `VF` gets its old high bit.
    ShiftLeft { x: u8, y: u8 },
    /// `9XY0`: skip the next instruction if `Vx != Vy`.
    SkipNeReg { x: u8, y: u8 },
    /// `ANNN`: set the index register to `nnn`.
    SetIndex { nnn: u16 },
    /// `BNNN`: jump to `V0 + nnn`.
    JumpV0 { nnn: u16 },
    /// `CXNN`: set `Vx` to a random byte ANDed with `nn`.
    Random { x: u8, nn: u8 },
    /// `DXYN`: draw the `n`-byte sprite at the index register to
    /// `(Vx, Vy)`; `VF` reports a collision.
    Draw { x: u8, y: u8, n: u8 },
    /// `EX9E`: skip the next instruction if key `Vx` is held.
    SkipKey { x: u8 },
    /// `EXA1`: skip the next instruction if key `Vx` is not held.
    SkipNoKey { x: u8 },
    /// `FX07`: set `Vx` to the delay timer.
    ReadDelay { x: u8 },
    /// `FX15`: set the delay timer to `Vx`.
    SetDelay { x: u8 },
    /// `FX18`: set the sound timer to `Vx`.
    SetSound { x: u8 },
    /// `FX1E`: add `Vx` to the index register.
    AddIndex { x: u8 },
    /// `FX29`: point the index register at the font glyph for digit `Vx`.
    FontAddr { x: u8 },
    /// `FX33`: store the decimal digits of `Vx` at the index register.
    StoreBcd { x: u8 },
    /// `FX55`: store `V0..=Vx` into memory at the index register.
    StoreRegs { x: u8 },
    /// `FX65`: load `V0..=Vx` from memory at the index register.
    LoadRegs { x: u8 },
}

/// The low 12 bits of an instruction word.
pub open spec fn op_nnn(word: u16) -> u16 {
    word & 0x0FFF
}

/// The low 8 bits of an instruction word.
pub open spec fn op_nn(word: u16) -> u8 {
    (word & 0x00FF) as u8
}

/// The low 4 bits of an instruction word.
pub open spec fn op_n(word: u16) -> u8 {
    (word & 0x000F) as u8
}

/// Bits 8 to 11 of an instruction word.
pub open spec fn op_x(word: u16) -> u8 {
    ((word >> 8u16) & 0x0F) as u8
}

/// Bits 4 to 7 of an instruction word.
pub open spec fn op_y(word: u16) -> u8 {
    ((word >> 4u16) & 0x0F) as u8
}

/// The operand fields of a decoded instruction lie in their ranges:
/// register indices below 16, addresses below 4096, sprite heights
/// below 16.
pub open spec fn wf_instruction(i: Instruction) -> bool {
    match i {
        Instruction::ClearScreen => true,
        Instruction::Return => true,
        Instruction::Jump { nnn } => nnn < 4096,
        Instruction::Call { nnn } => nnn < 4096,
        Instruction::SkipEqImm { x, nn } => x < 16,
        Instruction::SkipNeImm { x, nn } => x < 16,
        Instruction::SkipEqReg { x, y } => x < 16 && y < 16,
        Instruction::SetImm { x, nn } => x < 16,
        Instruction::AddImm { x, nn } => x < 16,
        Instruction::Copy { x, y } => x < 16 && y < 16,
        Instruction::Or { x, y } => x < 16 && y < 16,
        Instruction::And { x, y } => x < 16 && y < 16,
        Instruction::Xor { x, y } => x < 16 && y < 16,
        Instruction::Add { x, y } => x < 16 && y < 16,
        Instruction::Sub { x, y } => x < 16 && y < 16,
        Instruction::ShiftRight { x, y } => x < 16 && y < 16,
        Instruction::SubFrom { x, y } => x < 16 && y < 16,
        Instruction::ShiftLeft { x, y } => x < 16 && y < 16,
        Instruction::SkipNeReg { x, y } => x < 16 && y < 16,
        Instruction::SetIndex { nnn } => nnn < 4096,
        Instruction::JumpV0 { nnn } => nnn < 4096,
        Instruction::Random { x, nn } => x < 16,
        Instruction::Draw { x, y, n } => x < 16 && y < 16 && n < 16,
        Instruction::SkipKey { x } => x < 16,
        Instruction::SkipNoKey { x } => x < 16,
        Instruction::ReadDelay { x } => x < 16,
        Instruction::SetDelay { x } => x < 16,
        Instruction::SetSound { x } => x < 16,
        Instruction::AddIndex { x } => x < 16,
        Instruction::FontAddr { x } => x < 16,
        Instruction::StoreBcd { x } => x < 16,
        Instruction::StoreRegs { x } => x < 16,
        Instruction::LoadRegs { x } => x < 16,
    }
}

/// What a 16-bit word decodes to: `None` where it matches no instruction.
/// Every field is extracted by the fixed bit layout; validity of the word
/// is exactly whether some row matches.
pub open spec fn decode_spec(word: u16) -> Option<Instruction> {
    let nnn = op_nnn(word);
    let nn = op_nn(word);
    let n = op_n(word);
    let x = op_x(word);
    let y = op_y(word);
    let class = word >> 12u16;
    if word == 0x00E0 {
        Some(Instruction::ClearScreen)
    } else if word == 0x00EE {
        Some(Instruction::Return)
    } else if class == 0x1 {
        Some(Instruction::Jump { nnn })
    } else if class == 0x2 {
        Some(Instruction::Call { nnn })
    } else if class == 0x3 {
        Some(Instruction::SkipEqImm { x, nn })
    } else if class == 0x4 {
        Some(Instruction::SkipNeImm { x, nn })
    } else if class == 0x5 && n == 0x0 {
        Some(Instruction::SkipEqReg { x, y })
    } else if class == 0x6 {
        Some(Instruction::SetImm { x, nn })
    } else if class == 0x7 {
        Some(Instruction::AddImm { x, nn })
    } else if class == 0x8 && n == 0x0 {
        Some(Instruction::Copy { x, y })
    } else if class == 0x8 && n == 0x1 {
        Some(Instruction::Or { x, y })
    } else if class == 0x8 && n == 0x2 {
        Some(Instruction::And { x, y })
    } else if class == 0x8 && n == 0x3 {
        Some(Instruction::Xor { x, y })
    } else if class == 0x8 && n == 0x4 {
        Some(Instruction::Add { x, y })
    } else if class == 0x8 && n == 0x5 {
        Some(Instruction::Sub { x, y })
    } else if class == 0x8 && n == 0x6 {
        Some(Instruction::ShiftRight { x, y })
    } else if class == 0x8 && n == 0x7 {
        Some(Instruction::SubFrom { x, y })
    } else if class == 0x8 && n == 0xE {
        Some(Instruction::ShiftLeft { x, y })
    } else if class == 0x9 && n == 0x0 {
        Some(Instruction::SkipNeReg { x, y })
    } else if class == 0xA {
        Some(Instruction::SetIndex { nnn })
    } else if class == 0xB {
        Some(Instruction::JumpV0 { nnn })
    } else if class == 0xC {
        Some(Instruction::Random { x, nn })
    } else if class == 0xD {
        Some(Instruction::Draw { x, y, n })
    } else if class == 0xE && nn == 0x9E {
        Some(Instruction::SkipKey { x })
    } else if class == 0xE && nn == 0xA1 {
        Some(Instruction::SkipNoKey { x })
    } else if class == 0xF && nn == 0x07 {
        Some(Instruction::ReadDelay { x })
    } else if class == 0xF && nn == 0x15 {
        Some(Instruction::SetDelay { x })
    } else if class == 0xF && nn == 0x18 {
        Some(Instruction::SetSound { x })
    } else if class == 0xF && nn == 0x1E {
        Some(Instruction::AddIndex { x })
    } else if class == 0xF && nn == 0x29 {
        Some(Instruction::FontAddr { x })
    } else if class == 0xF && nn == 0x33 {
        Some(Instruction::StoreBcd { x })
    } else if class == 0xF && nn == 0x55 {
        Some(Instruction::StoreRegs { x })
    } else if class == 0xF && nn == 0x65 {
        Some(Instruction::LoadRegs { x })
    } else {
        None
    }
}

/// Decodes one instruction word. Deterministic, no side effects: every
/// word maps to its row of the instruction table, or to `None` where no
/// row matches.
pub fn decode(word: u16) -> (r: Option<Instruction>)
    ensures
        r == decode_spec(word),
        r is Some ==> wf_instruction(r->0),
{
    proof {
        assert(word & 0x0FFF < 4096 && (word >> 8u16) & 0x0F < 16 && (word >> 4u16) & 0x0F < 16
            && word & 0x000F < 16) by (bit_vector);
    }
    let nnn = word & 0x0FFF;
    let nn = (word & 0x00FF) as u8;
    let n = (word & 0x000F) as u8;
    let x = ((word >> 8u16) & 0x0F) as u8;
    let y = ((word >> 4u16) & 0x0F) as u8;
    let class = word >> 12u16;
    if word == 0x00E0 {
        Some(Instruction::ClearScreen)
    } else if word == 0x00EE {
        Some(Instruction::Return)
    } else if class == 0x1 {
        Some(Instruction::Jump { nnn })
    } else if class == 0x2 {
        Some(Instruction::Call { nnn })
    } else if class == 0x3 {
        Some(Instruction::SkipEqImm { x, nn })
    } else if class == 0x4 {
        Some(Instruction::SkipNeImm { x, nn })
    } else if class == 0x5 && n == 0x0 {
        Some(Instruction::SkipEqReg { x, y })
    } else if class == 0x6 {
        Some(Instruction::SetImm { x, nn })
    } else if class == 0x7 {
        Some(Instruction::AddImm { x, nn })
    } else if class == 0x8 && n == 0x0 {
        Some(Instruction::Copy { x, y })
    } else if class == 0x8 && n == 0x1 {
        Some(Instruction::Or { x, y })
    } else if class == 0x8 && n == 0x2 {
        Some(Instruction::And { x, y })
    } else if class == 0x8 && n == 0x3 {
        Some(Instruction::Xor { x, y })
    } else if class == 0x8 && n == 0x4 {
        Some(Instruction::Add { x, y })
    } else if class == 0x8 && n == 0x5 {
        Some(Instruction::Sub { x, y })
    } else if class == 0x8 && n == 0x6 {
        Some(Instruction::ShiftRight { x, y })
    } else if class == 0x8 && n == 0x7 {
        Some(Instruction::SubFrom { x, y })
    } else if class == 0x8 && n == 0xE {
        Some(Instruction::ShiftLeft { x, y })
    } else if class == 0x9 && n == 0x0 {
        Some(Instruction::SkipNeReg { x, y })
    } else if class == 0xA {
        Some(Instruction::SetIndex { nnn })
    } else if class == 0xB {
        Some(Instruction::JumpV0 { nnn })
    } else if class == 0xC {
        Some(Instruction::Random { x, nn })
    } else if class == 0xD {
        Some(Instruction::Draw { x, y, n })
    } else if class == 0xE && nn == 0x9E {
        Some(Instruction::SkipKey { x })
    } else if class == 0xE && nn == 0xA1 {
        Some(Instruction::SkipNoKey { x })
    } else if class == 0xF && nn == 0x07 {
        Some(Instruction::ReadDelay { x })
    } else if class == 0xF && nn == 0x15 {
        Some(Instruction::SetDelay { x })
    } else if class == 0xF && nn == 0x18 {
        Some(Instruction::SetSound { x })
    } else if class == 0xF && nn == 0x1E {
        Some(Instruction::AddIndex { x })
    } else if class == 0xF && nn == 0x29 {
        Some(Instruction::FontAddr { x })
    } else if class == 0xF && nn == 0x33 {
        Some(Instruction::StoreBcd { x })
    } else if class == 0xF && nn == 0x55 {
        Some(Instruction::StoreRegs { x })
    } else if class == 0xF && nn == 0x65 {
        Some(Instruction::LoadRegs { x })
    } else {
        None
    }
}

} // verus!
