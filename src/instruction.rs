use vstd::prelude::*;

use crate::opcode::{low_byte, low_word, nibble_i, nibble_n, nibble_x, nibble_y, Opcode};

verus! {

broadcast use crate::opcode::Opcode::lemma_spec_new_view;

/// Why an instruction word could not be decoded.
#[derive(Debug, Clone, Copy, PartialEq, Eq)]
pub enum ParseError {
    /// The word matches no instruction.
    UnknownOpcode(Opcode),
}

/// A CPU instruction with its operands. Registers are named by index
/// (`vx`, `vy`), addresses and values are immediate.
#[derive(Debug, Clone, Copy, PartialEq, Eq, Structural)]
pub enum Instruction {
    /// `00E0` `CLS`: clear the display.
    DisplayClear,
    /// `00EE` `RET`: return from a subroutine.
    SubroutineReturn,
    /// `0nnn` `SYS addr`: run machine code at an address. Not supported.
    System { address: u16 },
    /// `1nnn` `JP addr`: jump to an address.
    Jump { address: u16 },
    /// `2nnn` `CALL addr`: call a subroutine at an address.
    SubroutineCall { address: u16 },
    /// `3xnn` `SE Vx byte`: skip the next instruction if `Vx` equals a value.
    SkipIfVxEqualsValue { vx: usize, value: u8 },
    /// `4xnn` `SNE Vx byte`: skip the next instruction if `Vx` differs from a value.
    SkipIfVxNotEqualsValue { vx: usize, value: u8 },
    /// `5xy0` `SE Vx Vy`: skip the next instruction if `Vx` equals `Vy`.
    SkipIfVxEqualsVy { vx: usize, vy: usize },
    /// `6xnn` `LD Vx byte`: load a value into `Vx`.
    SetVxWithValue { vx: usize, value: u8 },
    /// `7xnn` `ADD Vx byte`: add a value to `Vx`, wrapping, without a flag.
    AddVxValue { vx: usize, value: u8 },
    /// `8xy0` `LD Vx Vy`: copy `Vy` into `Vx`.
    SetVxWithVy { vx: usize, vy: usize },
    /// `8xy1` `OR Vx Vy`.
    OrVxWithVy { vx: usize, vy: usize },
    /// `8xy2` `AND Vx Vy`.
    AndVxWithVy { vx: usize, vy: usize },
    /// `8xy3` `XOR Vx Vy`.
    XorVxWithVy { vx: usize, vy: usize },
    /// `8xy4` `ADD Vx Vy`: add `Vy` to `Vx`; `VF` holds the carry.
    AddVxWithVy { vx: usize, vy: usize },
    /// `8xy5` `SUB Vx Vy`: subtract `Vy` from `Vx`; `VF` is 1 when no borrow occurred.
    SubtractVxWithVy { vx: usize, vy: usize },
    /// `8xy6` `SHR Vx Vy`: shift right by one; `VF` holds the bit shifted out.
    /// Depending on the configuration, `Vy` is first copied into `Vx`.
    Shift1RightVxWithVy { vx: usize, vy: usize },
    /// `8xy7` `SUBN Vx Vy`: store `Vy` minus `Vx` in `Vx`; `VF` is 1 when no borrow occurred.
    SubtractVyWithVx { vx: usize, vy: usize },
    /// `8xyE` `SHL Vx Vy`: shift left by one; `VF` holds the bit shifted out.
    /// Depending on the configuration, `Vy` is first copied into `Vx`.
    Shift1LeftVxWithVy { vx: usize, vy: usize },
    /// `9xy0` `SNE Vx Vy`: skip the next instruction if `Vx` differs from `Vy`.
    SkipIfVxNotEqualsVy { vx: usize, vy: usize },
    /// `Annn` `LD I addr`: load an address into `I`.
    SetIWithValue { value: u16 },
    /// `Bnnn` `JP V0 addr`: jump to an address plus `V0`, or plus `Vx`
    /// depending on the configuration.
    JumpWithOffset { vx: usize, address: u16 },
    /// `Cxnn` `RND Vx byte`: a random byte masked by a value into `Vx`.
    SetVxWithRandom { vx: usize, value: u8 },
    /// `Dxyn` `DRW Vx Vy n`: draw `n` sprite rows from `I` at (`Vx`, `Vy`).
    DisplayDraw { vx: usize, vy: usize, height: u8 },
    /// `Ex9E` `SKP Vx`: skip the next instruction if the key in `Vx` is held.
    SkipIfVxKeyPressed { vx: usize },
    /// `ExA1` `SKNP Vx`: skip the next instruction if the key in `Vx` is not held.
    SkipIfVxKeyNotPressed { vx: usize },
    /// `Fx07` `LD Vx DT`: load the delay timer into `Vx`.
    SetVxWithDt { vx: usize },
    /// `Fx0A` `LD Vx K`: stop until a key is released and store it in `Vx`.
    SetVxWithNextPressedKeyBlocking { vx: usize },
    /// `Fx15` `LD DT Vx`: load `Vx` into the delay timer.
    SetDtWithVx { vx: usize },
    /// `Fx18` `LD ST Vx`: load `Vx` into the sound timer.
    SetStWithVx { vx: usize },
    /// `Fx1E` `ADD I Vx`: add `Vx` to `I`. Depending on the configuration,
    /// `VF` is set when `I` leaves the address space.
    AddIWithVx { vx: usize },
    /// `Fx29` `LD F Vx`: point `I` at the font sprite of the digit in `Vx`.
    SetIWithCharacterAtVx { vx: usize },
}

impl Instruction {
    /// Every operand is one a 16-bit instruction word can encode: register
    /// indices below 16, addresses below `0x1000`, heights below 16.
    pub open spec fn wf(self) -> bool {
        match self {
            Instruction::DisplayClear | Instruction::SubroutineReturn => true,
            Instruction::System { address }
            | Instruction::Jump { address }
            | Instruction::SubroutineCall { address } => address < 0x1000,
            Instruction::SetIWithValue { value } => value < 0x1000,
            Instruction::JumpWithOffset { vx, address } => vx < 16 && address < 0x1000,
            Instruction::SkipIfVxEqualsValue { vx, .. }
            | Instruction::SkipIfVxNotEqualsValue { vx, .. }
            | Instruction::SetVxWithValue { vx, .. }
            | Instruction::AddVxValue { vx, .. }
            | Instruction::SetVxWithRandom { vx, .. }
            | Instruction::SkipIfVxKeyPressed { vx }
            | Instruction::SkipIfVxKeyNotPressed { vx }
            | Instruction::SetVxWithDt { vx }
            | Instruction::SetVxWithNextPressedKeyBlocking { vx }
            | Instruction::SetDtWithVx { vx }
            | Instruction::SetStWithVx { vx }
            | Instruction::AddIWithVx { vx }
            | Instruction::SetIWithCharacterAtVx { vx } => vx < 16,
            Instruction::SkipIfVxEqualsVy { vx, vy }
            | Instruction::SetVxWithVy { vx, vy }
            | Instruction::OrVxWithVy { vx, vy }
            | Instruction::AndVxWithVy { vx, vy }
            | Instruction::XorVxWithVy { vx, vy }
            | Instruction::AddVxWithVy { vx, vy }
            | Instruction::SubtractVxWithVy { vx, vy }
            | Instruction::Shift1RightVxWithVy { vx, vy }
            | Instruction::SubtractVyWithVx { vx, vy }
            | Instruction::Shift1LeftVxWithVy { vx, vy }
            | Instruction::SkipIfVxNotEqualsVy { vx, vy } => vx < 16 && vy < 16,
            Instruction::DisplayDraw { vx, vy, height } => vx < 16 && vy < 16 && height < 16,
        }
    }
}

/// The words that name an instruction, family by family.
pub open spec fn is_known_opcode(w: u16) -> bool {
    let i = nibble_i(w);
    let n = nibble_n(w);
    let nn = low_byte(w);
    ||| i == 0x0 || i == 0x1 || i == 0x2 || i == 0x3 || i == 0x4 || i == 0x6 || i == 0x7
    ||| 0xA <= i <= 0xD
    ||| (i == 0x5 || i == 0x9) && n == 0x0
    ||| i == 0x8 && (n <= 0x7 || n == 0xE)
    ||| i == 0xE && (nn == 0x9E || nn == 0xA1)
    ||| i == 0xF && (nn == 0x07 || nn == 0x0A || nn == 0x15 || nn == 0x18 || nn == 0x1E || nn
        == 0x29)
}

/// The instruction an opcode names, or the reason it names none.
pub open spec fn decode_spec(op: Opcode) -> Result<Instruction, ParseError> {
    let w = op@;
    let i = nibble_i(w);
    let x = nibble_x(w);
    let y = nibble_y(w);
    let n = nibble_n(w);
    let vx = x as usize;
    let vy = y as usize;
    let nn = low_byte(w) as u8;
    let nnn = low_word(w) as u16;
    if i == 0x0 && x == 0x0 && y == 0xE && n == 0x0 {
        Ok(Instruction::DisplayClear)
    } else if i == 0x0 && x == 0x0 && y == 0xE && n == 0xE {
        Ok(Instruction::SubroutineReturn)
    } else if i == 0x0 {
        Ok(Instruction::System { address: nnn })
    } else if i == 0x1 {
        Ok(Instruction::Jump { address: nnn })
    } else if i == 0x2 {
        Ok(Instruction::SubroutineCall { address: nnn })
    } else if i == 0x3 {
        Ok(Instruction::SkipIfVxEqualsValue { vx, value: nn })
    } else if i == 0x4 {
        Ok(Instruction::SkipIfVxNotEqualsValue { vx, value: nn })
    } else if i == 0x5 && n == 0x0 {
        Ok(Instruction::SkipIfVxEqualsVy { vx, vy })
    } else if i == 0x6 {
        Ok(Instruction::SetVxWithValue { vx, value: nn })
    } else if i == 0x7 {
        Ok(Instruction::AddVxValue { vx, value: nn })
    } else if i == 0x8 && n == 0x0 {
        Ok(Instruction::SetVxWithVy { vx, vy })
    } else if i == 0x8 && n == 0x1 {
        Ok(Instruction::OrVxWithVy { vx, vy })
    } else if i == 0x8 && n == 0x2 {
        Ok(Instruction::AndVxWithVy { vx, vy })
    } else if i == 0x8 && n == 0x3 {
        Ok(Instruction::XorVxWithVy { vx, vy })
    } else if i == 0x8 && n == 0x4 {
        Ok(Instruction::AddVxWithVy { vx, vy })
    } else if i == 0x8 && n == 0x5 {
        Ok(Instruction::SubtractVxWithVy { vx, vy })
    } else if i == 0x8 && n == 0x6 {
        Ok(Instruction::Shift1RightVxWithVy { vx, vy })
    } else if i == 0x8 && n == 0x7 {
        Ok(Instruction::SubtractVyWithVx { vx, vy })
    } else if i == 0x8 && n == 0xE {
        Ok(Instruction::Shift1LeftVxWithVy { vx, vy })
    } else if i == 0x9 && n == 0x0 {
        Ok(Instruction::SkipIfVxNotEqualsVy { vx, vy })
    } else if i == 0xA {
        Ok(Instruction::SetIWithValue { value: nnn })
    } else if i == 0xB {
        Ok(Instruction::JumpWithOffset { vx, address: nnn })
    } else if i == 0xC {
        Ok(Instruction::SetVxWithRandom { vx, value: nn })
    } else if i == 0xD {
        Ok(Instruction::DisplayDraw { vx, vy, height: n as u8 })
    } else if i == 0xE && y == 0x9 && n == 0xE {
        Ok(Instruction::SkipIfVxKeyPressed { vx })
    } else if i == 0xE && y == 0xA && n == 0x1 {
        Ok(Instruction::SkipIfVxKeyNotPressed { vx })
    } else if i == 0xF && y == 0x0 && n == 0x7 {
        Ok(Instruction::SetVxWithDt { vx })
    } else if i == 0xF && y == 0x0 && n == 0xA {
        Ok(Instruction::SetVxWithNextPressedKeyBlocking { vx })
    } else if i == 0xF && y == 0x1 && n == 0x5 {
        Ok(Instruction::SetDtWithVx { vx })
    } else if i == 0xF && y == 0x1 && n == 0x8 {
        Ok(Instruction::SetStWithVx { vx })
    } else if i == 0xF && y == 0x1 && n == 0xE {
        Ok(Instruction::AddIWithVx { vx })
    } else if i == 0xF && y == 0x2 && n == 0x9 {
        Ok(Instruction::SetIWithCharacterAtVx { vx })
    } else {
        Err(ParseError::UnknownOpcode(op))
    }
}

/// Decode a split instruction word.
pub fn decode(value: Opcode) -> (r: Result<Instruction, ParseError>)
    ensures
        r == decode_spec(value),
{
    let (i, x, y, n, nn, nnn) = value.parts();
    let instruction = match (i, x, y, n) {
        (0x0, 0x0, 0xE, 0x0) => Instruction::DisplayClear,
        (0x0, 0x0, 0xE, 0xE) => Instruction::SubroutineReturn,
        (0x0, _, _, _) => Instruction::System { address: nnn },
        (0x1, _, _, _) => Instruction::Jump { address: nnn },
        (0x2, _, _, _) => Instruction::SubroutineCall { address: nnn },
        (0x3, _, _, _) => Instruction::SkipIfVxEqualsValue { vx: x, value: nn },
        (0x4, _, _, _) => Instruction::SkipIfVxNotEqualsValue { vx: x, value: nn },
        (0x5, _, _, 0x0) => Instruction::SkipIfVxEqualsVy { vx: x, vy: y },
        (0x6, _, _, _) => Instruction::SetVxWithValue { vx: x, value: nn },
        (0x7, _, _, _) => Instruction::AddVxValue { vx: x, value: nn },
        (0x8, _, _, 0x0) => Instruction::SetVxWithVy { vx: x, vy: y },
        (0x8, _, _, 0x1) => Instruction::OrVxWithVy { vx: x, vy: y },
        (0x8, _, _, 0x2) => Instruction::AndVxWithVy { vx: x, vy: y },
        (0x8, _, _, 0x3) => Instruction::XorVxWithVy { vx: x, vy: y },
        (0x8, _, _, 0x4) => Instruction::AddVxWithVy { vx: x, vy: y },
        (0x8, _, _, 0x5) => Instruction::SubtractVxWithVy { vx: x, vy: y },
        (0x8, _, _, 0x6) => Instruction::Shift1RightVxWithVy { vx: x, vy: y },
        (0x8, _, _, 0x7) => Instruction::SubtractVyWithVx { vx: x, vy: y },
        (0x8, _, _, 0xE) => Instruction::Shift1LeftVxWithVy { vx: x, vy: y },
        (0x9, _, _, 0x0) => Instruction::SkipIfVxNotEqualsVy { vx: x, vy: y },
        (0xA, _, _, _) => Instruction::SetIWithValue { value: nnn },
        (0xB, _, _, _) => Instruction::JumpWithOffset { vx: x, address: nnn },
        (0xC, _, _, _) => Instruction::SetVxWithRandom { vx: x, value: nn },
        (0xD, _, _, _) => Instruction::DisplayDraw { vx: x, vy: y, height: n as u8 },
        (0xE, _, 0x9, 0xE) => Instruction::SkipIfVxKeyPressed { vx: x },
        (0xE, _, 0xA, 0x1) => Instruction::SkipIfVxKeyNotPressed { vx: x },
        (0xF, _, 0x0, 0x7) => Instruction::SetVxWithDt { vx: x },
        (0xF, _, 0x0, 0xA) => Instruction::SetVxWithNextPressedKeyBlocking { vx: x },
        (0xF, _, 0x1, 0x5) => Instruction::SetDtWithVx { vx: x },
        (0xF, _, 0x1, 0x8) => Instruction::SetStWithVx { vx: x },
        (0xF, _, 0x1, 0xE) => Instruction::AddIWithVx { vx: x },
        (0xF, _, 0x2, 0x9) => Instruction::SetIWithCharacterAtVx { vx: x },
        _ => {
            return Err(ParseError::UnknownOpcode(value));
        },
    };
    Ok(instruction)
}

impl TryFrom<Opcode> for Instruction {
    type Error = ParseError;

    fn try_from(value: Opcode) -> (r: Result<Instruction, ParseError>) {
        decode(value)
    }
}

impl vstd::std_specs::convert::TryFromSpecImpl<Opcode> for Instruction {
    open spec fn obeys_try_from_spec() -> bool {
        true
    }

    open spec fn try_from_spec(v: Opcode) -> Result<Instruction, ParseError> {
        decode_spec(v)
    }
}

/// Decoding a word that matches an instruction family always succeeds and
/// depends on the word alone: two opcodes split from the same word decode to
/// the same instruction, whose operands are ones the word can encode.
pub proof fn lemma_decode_deterministic(a: Opcode, b: Opcode)
    requires
        a@ == b@,
        is_known_opcode(a@),
    ensures
        decode_spec(a) is Ok,
        decode_spec(a) == decode_spec(b),
        decode_spec(a)->Ok_0.wf(),
{
}

/// Every word outside the instruction families decodes to `UnknownOpcode`
/// carrying that word, and every word inside them decodes to an instruction.
pub proof fn lemma_decode_unknown(op: Opcode)
    ensures
        !is_known_opcode(op@) <==> decode_spec(op) == Err::<Instruction, ParseError>(
            ParseError::UnknownOpcode(op),
        ),
        is_known_opcode(op@) <==> decode_spec(op) is Ok,
{
}

} // verus!
