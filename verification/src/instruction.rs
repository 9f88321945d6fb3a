//! Instruction words and their decoding.
//!
//! An instruction is one 16-bit word, read as four nibbles. The leading
//! nibble, and for some families the trailing nibble or byte, selects the
//! operation; the rest are operands: two register numbers `x` and `y`, a
//! row count `n`, an immediate byte `nn` and an address `nnn`.

use vstd::prelude::*;

verus! {

/// A decoded instruction with its operands.
#[derive(Clone, Copy, Debug, PartialEq, Eq, Structural)]
pub enum Instruction {
    /// `00E0`: switch every pixel off.
    ClearDisplay,
    /// `00EE`: return from a subroutine.
    Return,
    /// `1nnn`: continue at `nnn`.
    Jump { nnn: usize },
    /// `2nnn`: call the subroutine at `nnn`.
    Call { nnn: usize },
    /// `3xnn`: skip the next instruction if register `x` holds `nn`.
    SkipIfEqual { x: usize, nn: u8 },
    /// `4xnn`: skip the next instruction unless register `x` holds `nn`.
    SkipIfNotEqual { x: usize, nn: u8 },
    /// `5xy0`: skip the next instruction if registers `x` and `y` agree.
    SkipIfRegistersEqual { x: usize, y: usize },
    /// `6xnn`: put `nn` into register `x`.
    SetRegister { x: usize, nn: u8 },
    /// `7xnn`: add `nn` to register `x`, wrapping, without touching the flag.
    AddImmediate { x: usize, nn: u8 },
    /// `8xy0`: copy register `y` into register `x`.
    CopyRegister { x: usize, y: usize },
    /// `8xy1`: bitwise or of registers `x` and `y` into `x`.
    OrRegisters { x: usize, y: usize },
    /// `8xy2`: bitwise and of registers `x` and `y` into `x`.
    AndRegisters { x: usize, y: usize },
    /// `8xy3`: bitwise exclusive or of registers `x` and `y` into `x`.
    XorRegisters { x: usize, y: usize },
    /// `8xy4`: add register `y` to register `x`; the flag reports the carry.
    AddRegisters { x: usize, y: usize },
    /// `8xy5`: subtract register `y` from register `x`; the flag reports
    /// that `x` was the larger.
    SubRegisters { x: usize, y: usize },
    /// `8xy6`: shift register `x` right by one; the flag receives the bit
    /// shifted out.
    ShiftRight { x: usize },
    /// `8xy7`: put register `y` minus register `x` into `x`; the flag
    /// reports that `y` was the larger.
    SubReverse { x: usize, y: usize },
    /// `8xyE`: shift register `x` left by one; the flag receives the bit
    /// shifted out.
    ShiftLeft { x: usize },
    /// `9xy0`: skip the next instruction if registers `x` and `y` differ.
    SkipIfRegistersNotEqual { x: usize, y: usize },
    /// `Annn`: point the index register at `nnn`.
    SetIndex { nnn: usize },
    /// `Bnnn`: continue at `nnn` plus the value of register 0.
    JumpWithOffset { nnn: usize },
    /// `Cxnn`: put a random byte, masked by `nn`, into register `x`.
    RandomAnd { x: usize, nn: u8 },
    /// `Dxyn`: draw the `n`-row sprite at the index register at the
    /// position held in registers `x` and `y`.
    DrawSprite { x: usize, y: usize, n: usize },
    /// `Ex9E`: skip the next instruction if the key named by register `x`
    /// is down.
    SkipIfKeyDown { x: usize },
    /// `ExA1`: skip the next instruction if the key named by register `x`
    /// is up.
    SkipIfKeyUp { x: usize },
    /// `Fx07`: read the delay timer into register `x`.
    GetDelayTimer { x: usize },
    /// `Fx0A`: wait until a key is down and put its number into register
    /// `x`.
    WaitForKey { x: usize },
    /// `Fx15`: set the delay timer from register `x`.
    SetDelayTimer { x: usize },
    /// `Fx18`: set the sound timer from register `x`.
    SetSoundTimer { x: usize },
    /// `Fx1E`: add register `x` to the index register.
    AddToIndex { x: usize },
    /// `Fx29`: point the index register at the glyph of the digit in
    /// register `x`.
    LoadGlyphAddress { x: usize },
    /// `Fx33`: store the three decimal digits of register `x` at the index
    /// register.
    StoreBcd { x: usize },
    /// `Fx55`: store registers 0 to `x` at the index register.
    StoreRegisters { x: usize },
    /// `Fx65`: load registers 0 to `x` from the index register.
    LoadRegisters { x: usize },
}

impl Instruction {
    /// Every operand fits its field of the instruction word: register
    /// numbers and row counts in a nibble, addresses in twelve bits.
    pub open spec fn wf(self) -> bool {
        match self {
            Instruction::ClearDisplay | Instruction::Return => true,
            Instruction::Jump { nnn }
            | Instruction::Call { nnn }
            | Instruction::SetIndex { nnn }
            | Instruction::JumpWithOffset { nnn } => nnn < 0x1000,
            Instruction::SkipIfEqual { x, nn }
            | Instruction::SkipIfNotEqual { x, nn }
            | Instruction::SetRegister { x, nn }
            | Instruction::AddImmediate { x, nn }
            | Instruction::RandomAnd { x, nn } => x < 16,
            Instruction::SkipIfRegistersEqual { x, y }
            | Instruction::CopyRegister { x, y }
            | Instruction::OrRegisters { x, y }
            | Instruction::AndRegisters { x, y }
            | Instruction::XorRegisters { x, y }
            | Instruction::AddRegisters { x, y }
            | Instruction::SubRegisters { x, y }
            | Instruction::SubReverse { x, y }
            | Instruction::SkipIfRegistersNotEqual { x, y } => x < 16 && y < 16,
            Instruction::DrawSprite { x, y, n } => x < 16 && y < 16 && n < 16,
            Instruction::ShiftRight { x }
            | Instruction::ShiftLeft { x }
            | Instruction::SkipIfKeyDown { x }
            | Instruction::SkipIfKeyUp { x }
            | Instruction::GetDelayTimer { x }
            | Instruction::WaitForKey { x }
            | Instruction::SetDelayTimer { x }
            | Instruction::SetSoundTimer { x }
            | Instruction::AddToIndex { x }
            | Instruction::LoadGlyphAddress { x }
            | Instruction::StoreBcd { x }
            | Instruction::StoreRegisters { x }
            | Instruction::LoadRegisters { x } => x < 16,
        }
    }
}

/// The leading nibble of an instruction word.
pub open spec fn family(word: u16) -> int {
    word as int / 0x1000
}

/// The second nibble of an instruction word: the register operand `x`.
pub open spec fn operand_x(word: u16) -> usize {
    ((word as int / 0x100) % 0x10) as usize
}

/// The third nibble of an instruction word: the register operand `y`.
pub open spec fn operand_y(word: u16) -> usize {
    ((word as int / 0x10) % 0x10) as usize
}

/// The last nibble of an instruction word: the row count `n`.
pub open spec fn operand_n(word: u16) -> usize {
    (word as int % 0x10) as usize
}

/// The low byte of an instruction word: the immediate `nn`.
pub open spec fn operand_nn(word: u16) -> u8 {
    (word as int % 0x100) as u8
}

/// The low twelve bits of an instruction word: the address `nnn`.
pub open spec fn operand_nnn(word: u16) -> usize {
    (word as int % 0x1000) as usize
}

/// The instruction that a word encodes, or `None` where the word encodes
/// none.
pub open spec fn decoded(word: u16) -> Option<Instruction> {
    let x = operand_x(word);
    let y = operand_y(word);
    let n = operand_n(word);
    let nn = operand_nn(word);
    let nnn = operand_nnn(word);
    let family = family(word);
    if word == 0x00E0 {
        Some(Instruction::ClearDisplay)
    } else if word == 0x00EE {
        Some(Instruction::Return)
    } else if family == 0x1 {
        Some(Instruction::Jump { nnn })
    } else if family == 0x2 {
        Some(Instruction::Call { nnn })
    } else if family == 0x3 {
        Some(Instruction::SkipIfEqual { x, nn })
    } else if family == 0x4 {
        Some(Instruction::SkipIfNotEqual { x, nn })
    } else if family == 0x5 && n == 0x0 {
        Some(Instruction::SkipIfRegistersEqual { x, y })
    } else if family == 0x6 {
        Some(Instruction::SetRegister { x, nn })
    } else if family == 0x7 {
        Some(Instruction::AddImmediate { x, nn })
    } else if family == 0x8 && n == 0x0 {
        Some(Instruction::CopyRegister { x, y })
    } else if family == 0x8 && n == 0x1 {
        Some(Instruction::OrRegisters { x, y })
    } else if family == 0x8 && n == 0x2 {
        Some(Instruction::AndRegisters { x, y })
    } else if family == 0x8 && n == 0x3 {
        Some(Instruction::XorRegisters { x, y })
    } else if family == 0x8 && n == 0x4 {
        Some(Instruction::AddRegisters { x, y })
    } else if family == 0x8 && n == 0x5 {
        Some(Instruction::SubRegisters { x, y })
    } else if family == 0x8 && n == 0x6 {
        Some(Instruction::ShiftRight { x })
    } else if family == 0x8 && n == 0x7 {
        Some(Instruction::SubReverse { x, y })
    } else if family == 0x8 && n == 0xE {
        Some(Instruction::ShiftLeft { x })
    } else if family == 0x9 && n == 0x0 {
        Some(Instruction::SkipIfRegistersNotEqual { x, y })
    } else if family == 0xA {
        Some(Instruction::SetIndex { nnn })
    } else if family == 0xB {
        Some(Instruction::JumpWithOffset { nnn })
    } else if family == 0xC {
        Some(Instruction::RandomAnd { x, nn })
    } else if family == 0xD {
        Some(Instruction::DrawSprite { x, y, n })
    } else if family == 0xE && nn == 0x9E {
        Some(Instruction::SkipIfKeyDown { x })
    } else if family == 0xE && nn == 0xA1 {
        Some(Instruction::SkipIfKeyUp { x })
    } else if family == 0xF && nn == 0x07 {
        Some(Instruction::GetDelayTimer { x })
    } else if family == 0xF && nn == 0x0A {
        Some(Instruction::WaitForKey { x })
    } else if family == 0xF && nn == 0x15 {
        Some(Instruction::SetDelayTimer { x })
    } else if family == 0xF && nn == 0x18 {
        Some(Instruction::SetSoundTimer { x })
    } else if family == 0xF && nn == 0x1E {
        Some(Instruction::AddToIndex { x })
    } else if family == 0xF && nn == 0x29 {
        Some(Instruction::LoadGlyphAddress { x })
    } else if family == 0xF && nn == 0x33 {
        Some(Instruction::StoreBcd { x })
    } else if family == 0xF && nn == 0x55 {
        Some(Instruction::StoreRegisters { x })
    } else if family == 0xF && nn == 0x65 {
        Some(Instruction::LoadRegisters { x })
    } else {
        None
    }
}

/// Whatever a word decodes to has operands that fit their fields.
pub proof fn lemma_decoded_wf(word: u16)
    ensures
        decoded(word) matches Some(ins) ==> ins.wf(),
{
}

/// Splits an instruction word into its nibbles and picks the instruction
/// they encode. Words that encode none decode to `None`.
#[verifier::when_used_as_spec(decoded)]
pub fn decode(opcode: u16) -> (ins: Option<Instruction>)
    ensures
        ins == decoded(opcode),
{
    let nibbles = (
        ((opcode & 0xF000) >> 12) as u8,
        ((opcode & 0x0F00) >> 8) as u8,
        ((opcode & 0x00F0) >> 4) as u8,
        (opcode & 0x000F) as u8,
    );

    let x = nibbles.1 as usize;
    let y = nibbles.2 as usize;
    let n = nibbles.3 as usize;
    let nn = (opcode & 0x00FF) as u8;
    let nnn = (opcode & 0x0FFF) as usize;

    proof {
        assert((opcode & 0xF000) >> 12 == opcode / 0x1000) by (bit_vector);
        assert((opcode & 0x0F00) >> 8 == (opcode / 0x100) % 0x10) by (bit_vector);
        assert((opcode & 0x00F0) >> 4 == (opcode / 0x10) % 0x10) by (bit_vector);
        assert(opcode & 0x000F == opcode % 0x10) by (bit_vector);
        assert(opcode & 0x00FF == opcode % 0x100) by (bit_vector);
        assert(opcode & 0x0FFF == opcode % 0x1000) by (bit_vector);
        assert(x == operand_x(opcode));
        assert(y == operand_y(opcode));
        assert(n == operand_n(opcode));
        assert(nn == operand_nn(opcode));
        assert(nnn == operand_nnn(opcode));
        assert(nibbles.0 == family(opcode));
    }

    match nibbles {
        (0x00, 0x00, 0x0E, 0x00) => Some(Instruction::ClearDisplay),
        (0x00, 0x00, 0x0E, 0x0E) => Some(Instruction::Return),
        (0x01, _, _, _) => Some(Instruction::Jump { nnn }),
        (0x02, _, _, _) => Some(Instruction::Call { nnn }),
        (0x03, _, _, _) => Some(Instruction::SkipIfEqual { x, nn }),
        (0x04, _, _, _) => Some(Instruction::SkipIfNotEqual { x, nn }),
        (0x05, _, _, 0x00) => Some(Instruction::SkipIfRegistersEqual { x, y }),
        (0x06, _, _, _) => Some(Instruction::SetRegister { x, nn }),
        (0x07, _, _, _) => Some(Instruction::AddImmediate { x, nn }),
        (0x08, _, _, 0x00) => Some(Instruction::CopyRegister { x, y }),
        (0x08, _, _, 0x01) => Some(Instruction::OrRegisters { x, y }),
        (0x08, _, _, 0x02) => Some(Instruction::AndRegisters { x, y }),
        (0x08, _, _, 0x03) => Some(Instruction::XorRegisters { x, y }),
        (0x08, _, _, 0x04) => Some(Instruction::AddRegisters { x, y }),
        (0x08, _, _, 0x05) => Some(Instruction::SubRegisters { x, y }),
        (0x08, _, _, 0x06) => Some(Instruction::ShiftRight { x }),
        (0x08, _, _, 0x07) => Some(Instruction::SubReverse { x, y }),
        (0x08, _, _, 0x0E) => Some(Instruction::ShiftLeft { x }),
        (0x09, _, _, 0x00) => Some(Instruction::SkipIfRegistersNotEqual { x, y }),
        (0x0A, _, _, _) => Some(Instruction::SetIndex { nnn }),
        (0x0B, _, _, _) => Some(Instruction::JumpWithOffset { nnn }),
        (0x0C, _, _, _) => Some(Instruction::RandomAnd { x, nn }),
        (0x0D, _, _, _) => Some(Instruction::DrawSprite { x, y, n }),
        (0x0E, _, 0x09, 0x0E) => Some(Instruction::SkipIfKeyDown { x }),
        (0x0E, _, 0x0A, 0x01) => Some(Instruction::SkipIfKeyUp { x }),
        (0x0F, _, 0x00, 0x07) => Some(Instruction::GetDelayTimer { x }),
        (0x0F, _, 0x00, 0x0A) => Some(Instruction::WaitForKey { x }),
        (0x0F, _, 0x01, 0x05) => Some(Instruction::SetDelayTimer { x }),
        (0x0F, _, 0x01, 0x08) => Some(Instruction::SetSoundTimer { x }),
        (0x0F, _, 0x01, 0x0E) => Some(Instruction::AddToIndex { x }),
        (0x0F, _, 0x02, 0x09) => Some(Instruction::LoadGlyphAddress { x }),
        (0x0F, _, 0x03, 0x03) => Some(Instruction::StoreBcd { x }),
        (0x0F, _, 0x05, 0x05) => Some(Instruction::StoreRegisters { x }),
        (0x0F, _, 0x06, 0x05) => Some(Instruction::LoadRegisters { x }),
        _ => None,
    }
}

} // verus!
