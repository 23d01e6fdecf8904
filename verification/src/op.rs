use vstd::prelude::*;
use vstd::arithmetic::power2::lemma2_to64;
use vstd::bits::lemma_u16_shr_is_div;
use crate::error::Error;
use crate::nibble::n_nibbles;

verus! {

/// One decoded instruction with its operands.
///
/// Registers are named by their index 0..=15 (`x`, `y`), `nn` is a byte, `nnn`
/// a 12-bit address and `n`, the height of a sprite, a nibble. The words in
/// the comments are the instruction words, nibble by nibble.
#[derive(Clone, Copy, Debug, PartialEq, Eq, Structural)]
pub enum Op {
    /// `00E0`: turns every pixel off.
    ClearScreen,
    /// `00EE`: returns from a subroutine.
    Return,
    /// `1nnn`: jumps to `nnn`.
    Jump(u16),
    /// `2nnn`: calls the subroutine at `nnn`.
    CallSubroutine(u16),
    /// `3xnn`: skips the next instruction if Vx is `nn`.
    SkipEqual(usize, u8),
    /// `4xnn`: skips the next instruction if Vx is not `nn`.
    SkipNotEqual(usize, u8),
    /// `5xy_`: skips the next instruction if Vx is Vy.
    SkipRegisterEqual(usize, usize),
    /// `6xnn`: puts `nn` in Vx.
    SetImmediate(usize, u8),
    /// `8xy0`: puts Vy in Vx.
    SetRegister(usize, usize),
    /// `7xnn`: adds `nn` to Vx, modulo 256; VF is not touched.
    Add(usize, u8),
    /// `8xy1`: puts Vx or Vy, bit by bit, in Vx.
    OrRegister(usize, usize),
    /// `8xy2`: puts Vx and Vy, bit by bit, in Vx.
    AndRegister(usize, usize),
    /// `8xy3`: puts Vx exclusive-or Vy, bit by bit, in Vx.
    XorRegister(usize, usize),
    /// `8xy4`: adds Vy to Vx, modulo 256; VF is the carry.
    AddRegister(usize, usize),
    /// `8xy5`: puts Vx minus Vy, modulo 256, in Vx; VF is 1 unless a borrow
    /// was needed.
    SubtractYFromX(usize, usize),
    /// `8xy7`: puts Vy minus Vx, modulo 256, in Vx; VF is 1 unless a borrow
    /// was needed.
    SubtractXFromY(usize, usize),
    /// `8xy6`: puts Vy, shifted right by one, in Vx; VF is the bit that fell
    /// out.
    ShiftRight(usize, usize),
    /// `8xyE`: puts Vy, shifted left by one, in Vx; VF is the bit that fell
    /// out.
    ShiftLeft(usize, usize),
    /// `Annn`: puts `nnn` in I.
    SetIndex(u16),
    /// `Bnnn`: jumps to `nnn` plus V0.
    JumpWithOffset(u16),
    /// `Cxnn`: puts a random byte, masked by `nn`, in Vx.
    Random(usize, u8),
    /// `Dxyn`: draws the sprite of `n` rows at I at column Vx, row Vy; VF
    /// tells whether a pixel was turned off.
    Display(usize, usize, u8),
    /// `Ex9E`: skips the next instruction if the key that Vx names is down.
    SkipIfPressed(usize),
    /// `ExA1`: skips the next instruction if the key that Vx names is up.
    SkipIfNotPressed(usize),
    /// `Fx07`: puts the delay timer in Vx.
    SetRegisterDelayTimer(usize),
    /// `Fx15`: starts the delay timer at Vx.
    SetDelayTimer(usize),
    /// `Fx18`: starts the sound timer at Vx.
    SetSoundTimer(usize),
    /// `Fx1E`: adds Vx to I.
    AddToIndex(usize),
    /// `Fx0A`: waits until a key goes down and puts its number in Vx.
    GetKey(usize),
    /// `Fx29`: points I at the glyph for the low nibble of Vx.
    FontCharacter(usize),
    /// `Fx33`: writes the three decimal digits of Vx at I, I+1 and I+2.
    DecimalConversion(usize),
    /// `Fx55`: writes V0 to Vx to memory from I on.
    Store(usize),
    /// `Fx65`: reads V0 to Vx from memory from I on.
    Load(usize),
}

impl Op {
    /// Every operand fits the field of the instruction word that it comes from.
    pub open spec fn wf(self) -> bool {
        match self {
            Op::ClearScreen | Op::Return => true,
            Op::Jump(nnn) | Op::CallSubroutine(nnn) | Op::SetIndex(nnn) | Op::JumpWithOffset(
                nnn,
            ) => nnn <= 0xFFF,
            Op::SkipEqual(x, _) | Op::SkipNotEqual(x, _) | Op::SetImmediate(x, _) | Op::Add(x, _)
            | Op::Random(x, _) => x < 16,
            Op::SkipRegisterEqual(x, y)
            | Op::SetRegister(x, y)
            | Op::OrRegister(x, y)
            | Op::AndRegister(x, y)
            | Op::XorRegister(x, y)
            | Op::AddRegister(x, y)
            | Op::SubtractYFromX(x, y)
            | Op::SubtractXFromY(x, y)
            | Op::ShiftRight(x, y)
            | Op::ShiftLeft(x, y) => x < 16 && y < 16,
            Op::Display(x, y, n) => x < 16 && y < 16 && n < 16,
            Op::SkipIfPressed(x)
            | Op::SkipIfNotPressed(x)
            | Op::SetRegisterDelayTimer(x)
            | Op::SetDelayTimer(x)
            | Op::SetSoundTimer(x)
            | Op::AddToIndex(x)
            | Op::GetKey(x)
            | Op::FontCharacter(x)
            | Op::DecimalConversion(x)
            | Op::Store(x)
            | Op::Load(x) => x < 16,
        }
    }

    /// Tells whether every operand fits its field.
    pub fn is_valid(&self) -> (valid: bool)
        ensures
            valid == self.wf(),
    {
        match *self {
            Op::ClearScreen | Op::Return => true,
            Op::Jump(nnn) | Op::CallSubroutine(nnn) | Op::SetIndex(nnn) | Op::JumpWithOffset(
                nnn,
            ) => nnn <= 0xFFF,
            Op::SkipEqual(x, _) | Op::SkipNotEqual(x, _) | Op::SetImmediate(x, _) | Op::Add(x, _)
            | Op::Random(x, _) => x < 16,
            Op::SkipRegisterEqual(x, y)
            | Op::SetRegister(x, y)
            | Op::OrRegister(x, y)
            | Op::AndRegister(x, y)
            | Op::XorRegister(x, y)
            | Op::AddRegister(x, y)
            | Op::SubtractYFromX(x, y)
            | Op::SubtractXFromY(x, y)
            | Op::ShiftRight(x, y)
            | Op::ShiftLeft(x, y) => x < 16 && y < 16,
            Op::Display(x, y, n) => x < 16 && y < 16 && n < 16,
            Op::SkipIfPressed(x)
            | Op::SkipIfNotPressed(x)
            | Op::SetRegisterDelayTimer(x)
            | Op::SetDelayTimer(x)
            | Op::SetSoundTimer(x)
            | Op::AddToIndex(x)
            | Op::GetKey(x)
            | Op::FontCharacter(x)
            | Op::DecimalConversion(x)
            | Op::Store(x)
            | Op::Load(x) => x < 16,
        }
    }
}

/// The meaning of an instruction word. With the nibbles numbered from the most
/// significant, the first selects the family, `x` is the second, `y` the third,
/// `n` the fourth, `nn` the low byte and `nnn` the low twelve bits.
pub open spec fn decode_spec(word: u16) -> Result<Op, Error> {
    let family = word / 0x1000;
    let x = ((word / 0x100) % 0x10) as usize;
    let y = ((word / 0x10) % 0x10) as usize;
    let n = (word % 0x10) as u8;
    let nn = (word % 0x100) as u8;
    let nnn = (word % 0x1000) as u16;
    if family == 0x0 {
        if nnn == 0x0E0 {
            Ok(Op::ClearScreen)
        } else if nnn == 0x0EE {
            Ok(Op::Return)
        } else {
            Err(Error::UnrecognizedInstruction)
        }
    } else if family == 0x1 {
        Ok(Op::Jump(nnn))
    } else if family == 0x2 {
        Ok(Op::CallSubroutine(nnn))
    } else if family == 0x3 {
        Ok(Op::SkipEqual(x, nn))
    } else if family == 0x4 {
        Ok(Op::SkipNotEqual(x, nn))
    } else if family == 0x5 {
        Ok(Op::SkipRegisterEqual(x, y))
    } else if family == 0x6 {
        Ok(Op::SetImmediate(x, nn))
    } else if family == 0x7 {
        Ok(Op::Add(x, nn))
    } else if family == 0x8 {
        if n == 0x0 {
            Ok(Op::SetRegister(x, y))
        } else if n == 0x1 {
            Ok(Op::OrRegister(x, y))
        } else if n == 0x2 {
            Ok(Op::AndRegister(x, y))
        } else if n == 0x3 {
            Ok(Op::XorRegister(x, y))
        } else if n == 0x4 {
            Ok(Op::AddRegister(x, y))
        } else if n == 0x5 {
            Ok(Op::SubtractYFromX(x, y))
        } else if n == 0x6 {
            Ok(Op::ShiftRight(x, y))
        } else if n == 0x7 {
            Ok(Op::SubtractXFromY(x, y))
        } else if n == 0xE {
            Ok(Op::ShiftLeft(x, y))
        } else {
            Err(Error::UnrecognizedInstruction)
        }
    } else if family == 0xA {
        Ok(Op::SetIndex(nnn))
    } else if family == 0xB {
        Ok(Op::JumpWithOffset(nnn))
    } else if family == 0xC {
        Ok(Op::Random(x, nn))
    } else if family == 0xD {
        Ok(Op::Display(x, y, n))
    } else if family == 0xE {
        if nn == 0x9E {
            Ok(Op::SkipIfPressed(x))
        } else if nn == 0xA1 {
            Ok(Op::SkipIfNotPressed(x))
        } else {
            Err(Error::UnrecognizedInstruction)
        }
    } else if family == 0xF {
        if nn == 0x07 {
            Ok(Op::SetRegisterDelayTimer(x))
        } else if nn == 0x0A {
            Ok(Op::GetKey(x))
        } else if nn == 0x15 {
            Ok(Op::SetDelayTimer(x))
        } else if nn == 0x18 {
            Ok(Op::SetSoundTimer(x))
        } else if nn == 0x1E {
            Ok(Op::AddToIndex(x))
        } else if nn == 0x29 {
            Ok(Op::FontCharacter(x))
        } else if nn == 0x33 {
            Ok(Op::DecimalConversion(x))
        } else if nn == 0x55 {
            Ok(Op::Store(x))
        } else if nn == 0x65 {
            Ok(Op::Load(x))
        } else {
            Err(Error::UnrecognizedInstruction)
        }
    } else {
        Err(Error::UnrecognizedInstruction)
    }
}

/// The nibble of `word` whose lowest bit stands at position `shift`, moved
/// down to the low end.
fn nibble_at(word: u16, shift: usize) -> (nibble: u16)
    requires
        shift == 0 || shift == 4 || shift == 8 || shift == 12,
    ensures
        shift == 0 ==> nibble == word % 0x10,
        shift == 4 ==> nibble == (word / 0x10) % 0x10,
        shift == 8 ==> nibble == (word / 0x100) % 0x10,
        shift == 12 ==> nibble == word / 0x1000,
{
    let field = n_nibbles(word, 1, shift);
    proof {
        lemma2_to64();
        lemma_u16_shr_is_div(field, shift as u16);
        if shift == 0 {
            assert(field == word % 0x10);
            assert(field >> shift == field / 0x1);
        } else if shift == 4 {
            assert(field == word % 0x100 - word % 0x10);
            assert(field >> shift == field / 0x10);
        } else if shift == 8 {
            assert(field == word % 0x1000 - word % 0x100);
            assert(field >> shift == field / 0x100);
        } else {
            assert(field == word - word % 0x1000);
            assert(field >> shift == field / 0x1000);
        }
    }
    field >> shift
}

/// Decodes one instruction word. Every word either has a meaning or is
/// reported as unrecognized; nothing else can happen.
pub fn decode(instruction: u16) -> (decoded: Result<Op, Error>)
    ensures
        decoded == decode_spec(instruction),
        decoded matches Ok(op) ==> op.wf(),
        decoded matches Err(e) ==> e == Error::UnrecognizedInstruction,
{
    let family = nibble_at(instruction, 12);
    let x = nibble_at(instruction, 8) as usize;
    let y = nibble_at(instruction, 4) as usize;
    let n = n_nibbles(instruction, 1, 0) as u8;
    let nn = n_nibbles(instruction, 2, 0) as u8;
    let nnn = n_nibbles(instruction, 3, 0);
    match family {
        0x0 => match nnn {
            0x0E0 => Ok(Op::ClearScreen),
            0x0EE => Ok(Op::Return),
            _ => Err(Error::UnrecognizedInstruction),
        },
        0x1 => Ok(Op::Jump(nnn)),
        0x2 => Ok(Op::CallSubroutine(nnn)),
        0x3 => Ok(Op::SkipEqual(x, nn)),
        0x4 => Ok(Op::SkipNotEqual(x, nn)),
        0x5 => Ok(Op::SkipRegisterEqual(x, y)),
        0x6 => Ok(Op::SetImmediate(x, nn)),
        0x7 => Ok(Op::Add(x, nn)),
        0x8 => match n {
            0x0 => Ok(Op::SetRegister(x, y)),
            0x1 => Ok(Op::OrRegister(x, y)),
            0x2 => Ok(Op::AndRegister(x, y)),
            0x3 => Ok(Op::XorRegister(x, y)),
            0x4 => Ok(Op::AddRegister(x, y)),
            0x5 => Ok(Op::SubtractYFromX(x, y)),
            0x6 => Ok(Op::ShiftRight(x, y)),
            0x7 => Ok(Op::SubtractXFromY(x, y)),
            0xE => Ok(Op::ShiftLeft(x, y)),
            _ => Err(Error::UnrecognizedInstruction),
        },
        0xA => Ok(Op::SetIndex(nnn)),
        0xB => Ok(Op::JumpWithOffset(nnn)),
        0xC => Ok(Op::Random(x, nn)),
        0xD => Ok(Op::Display(x, y, n)),
        0xE => match nn {
            0x9E => Ok(Op::SkipIfPressed(x)),
            0xA1 => Ok(Op::SkipIfNotPressed(x)),
            _ => Err(Error::UnrecognizedInstruction),
        },
        0xF => match nn {
            0x07 => Ok(Op::SetRegisterDelayTimer(x)),
            0x0A => Ok(Op::GetKey(x)),
            0x15 => Ok(Op::SetDelayTimer(x)),
            0x18 => Ok(Op::SetSoundTimer(x)),
            0x1E => Ok(Op::AddToIndex(x)),
            0x29 => Ok(Op::FontCharacter(x)),
            0x33 => Ok(Op::DecimalConversion(x)),
            0x55 => Ok(Op::Store(x)),
            0x65 => Ok(Op::Load(x)),
            _ => Err(Error::UnrecognizedInstruction),
        },
        _ => Err(Error::UnrecognizedInstruction),
    }
}

} // verus!
