use chip_8::{decode, Instruction, Opcode, ParseError};

fn op(i: u16, x: u16, y: u16, n: u16) -> Opcode {
    Opcode::from((i << 12) + (x << 8) + (y << 4) + n)
}

fn op_nn(i: u16, x: u16, nn: u16) -> Opcode {
    Opcode::from((i << 12) + (x << 8) + nn)
}

fn op_nnn(i: u16, nnn: u16) -> Opcode {
    Opcode::from((i << 12) + nnn)
}

#[test]
fn from_u16_splits() {
    for (word, i, x, y, n, nn, nnn) in [
        (0xD123u16, 0xDusize, 0x1usize, 0x2usize, 0x3usize, 0x23u8, 0x123u16),
        (0xA974, 0xA, 0x9, 0x7, 0x4, 0x74, 0x974),
    ] {
        let parts: (usize, usize, usize, usize, u8, u16) = Opcode::from(word).into();
        assert_eq!(parts, (i, x, y, n, nn, nnn));
    }
}

#[test]
fn from_u8_u8_splits() {
    for ((a, b), i, x, y, n, nn, nnn) in [
        ((0xD1u8, 0x23u8), 0xDusize, 0x1usize, 0x2usize, 0x3usize, 0x23u8, 0x123u16),
        ((0xA9, 0x74), 0xA, 0x9, 0x7, 0x4, 0x74, 0x974),
    ] {
        assert_eq!(Opcode::from((a, b)), Opcode::from(((a as u16) << 8) | b as u16));
        assert_eq!(Opcode::from((a, b)).parts(), (i, x, y, n, nn, nnn));
    }
}

#[test]
fn from_opcode_00e0_returns_display_clear() {
    assert_eq!(Instruction::try_from(Opcode::from(0x00E0)), Ok(Instruction::DisplayClear));
}

#[test]
fn from_opcode_00ee_returns_subroutine_return() {
    assert_eq!(Instruction::try_from(Opcode::from(0x00EE)), Ok(Instruction::SubroutineReturn));
}

#[test]
fn from_opcode_address_families() {
    for address in [0x123u16, 0x234] {
        assert_eq!(decode(op_nnn(0x0, address)), Ok(Instruction::System { address }));
        assert_eq!(decode(op_nnn(0x1, address)), Ok(Instruction::Jump { address }));
        assert_eq!(decode(op_nnn(0x2, address)), Ok(Instruction::SubroutineCall { address }));
        assert_eq!(decode(op_nnn(0xA, address)), Ok(Instruction::SetIWithValue { value: address }));
    }
}

#[test]
fn from_opcode_register_value_families() {
    for vx in [1usize, 2] {
        for value in [0x12u8, 0x23] {
            let o = |i: u16| op_nn(i, vx as u16, value as u16);
            assert_eq!(decode(o(0x3)), Ok(Instruction::SkipIfVxEqualsValue { vx, value }));
            assert_eq!(decode(o(0x4)), Ok(Instruction::SkipIfVxNotEqualsValue { vx, value }));
            assert_eq!(decode(o(0x6)), Ok(Instruction::SetVxWithValue { vx, value }));
            assert_eq!(decode(o(0x7)), Ok(Instruction::AddVxValue { vx, value }));
            assert_eq!(decode(o(0xC)), Ok(Instruction::SetVxWithRandom { vx, value }));
            assert_eq!(
                decode(o(0xB)),
                Ok(Instruction::JumpWithOffset { vx, address: ((vx << 8) as u16) + value as u16 })
            );
        }
    }
}

#[test]
fn from_opcode_register_pair_families() {
    for vx in [1usize, 2] {
        for vy in [2usize, 3] {
            let o = |i: u16, n: u16| op(i, vx as u16, vy as u16, n);
            assert_eq!(decode(o(0x5, 0x0)), Ok(Instruction::SkipIfVxEqualsVy { vx, vy }));
            assert_eq!(decode(o(0x8, 0x0)), Ok(Instruction::SetVxWithVy { vx, vy }));
            assert_eq!(decode(o(0x8, 0x1)), Ok(Instruction::OrVxWithVy { vx, vy }));
            assert_eq!(decode(o(0x8, 0x2)), Ok(Instruction::AndVxWithVy { vx, vy }));
            assert_eq!(decode(o(0x8, 0x3)), Ok(Instruction::XorVxWithVy { vx, vy }));
            assert_eq!(decode(o(0x8, 0x4)), Ok(Instruction::AddVxWithVy { vx, vy }));
            assert_eq!(decode(o(0x8, 0x5)), Ok(Instruction::SubtractVxWithVy { vx, vy }));
            assert_eq!(decode(o(0x8, 0x6)), Ok(Instruction::Shift1RightVxWithVy { vx, vy }));
            assert_eq!(decode(o(0x8, 0x7)), Ok(Instruction::SubtractVyWithVx { vx, vy }));
            assert_eq!(decode(o(0x8, 0xE)), Ok(Instruction::Shift1LeftVxWithVy { vx, vy }));
            assert_eq!(decode(o(0x9, 0x0)), Ok(Instruction::SkipIfVxNotEqualsVy { vx, vy }));
            for height in [4u8, 5] {
                assert_eq!(
                    decode(o(0xD, height as u16)),
                    Ok(Instruction::DisplayDraw { vx, vy, height })
                );
            }
        }
    }
}

#[test]
fn from_opcode_single_register_families() {
    for vx in [1usize, 2] {
        let o = |i: u16, nn: u16| op_nn(i, vx as u16, nn);
        assert_eq!(decode(o(0xE, 0x9E)), Ok(Instruction::SkipIfVxKeyPressed { vx }));
        assert_eq!(decode(o(0xE, 0xA1)), Ok(Instruction::SkipIfVxKeyNotPressed { vx }));
        assert_eq!(decode(o(0xF, 0x07)), Ok(Instruction::SetVxWithDt { vx }));
        assert_eq!(decode(o(0xF, 0x0A)), Ok(Instruction::SetVxWithNextPressedKeyBlocking { vx }));
        assert_eq!(decode(o(0xF, 0x15)), Ok(Instruction::SetDtWithVx { vx }));
        assert_eq!(decode(o(0xF, 0x18)), Ok(Instruction::SetStWithVx { vx }));
        assert_eq!(decode(o(0xF, 0x1E)), Ok(Instruction::AddIWithVx { vx }));
        assert_eq!(decode(o(0xF, 0x29)), Ok(Instruction::SetIWithCharacterAtVx { vx }));
    }
}

#[test]
fn unknown_words_are_refused() {
    for word in [0x5121u16, 0x8128, 0x812F, 0x9125, 0xE19F, 0xE1A2, 0xF1FF, 0xF133, 0xF155] {
        let o = Opcode::from(word);
        assert_eq!(decode(o), Err(ParseError::UnknownOpcode(o)));
    }
}

#[test]
fn decoding_twice_gives_the_same_instruction() {
    for word in [0x00E0u16, 0x1234, 0x8AB4, 0xD5F3, 0xF429, 0xE09E] {
        let first = decode(Opcode::from(word));
        let second = Instruction::try_from(Opcode::from(word));
        assert!(first.is_ok());
        assert_eq!(first, second);
    }
}

#[test]
fn every_word_decodes_without_panicking() {
    let mut known = 0usize;
    for word in 0..=u16::MAX {
        if decode(Opcode::from(word)).is_ok() {
            known += 1;
        }
    }
    // 0nnn, 1nnn, 2nnn, 3xnn, 4xnn, 6xnn, 7xnn, Annn to Dxyn: 11 * 4096 words;
    // 5xy0, 9xy0: 2 * 256; 8xy_: 9 * 256; Ex__: 2 * 16; Fx__: 6 * 16.
    assert_eq!(known, 11 * 4096 + 2 * 256 + 9 * 256 + 2 * 16 + 6 * 16);
}
