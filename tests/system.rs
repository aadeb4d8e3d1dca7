use chip_8::{
    Chip8, Config, ExecuteError, InstructionError, Memory, Opcode, ParseError, State,
    PROGRAM_START, SIZE_RAM,
};

fn target() -> Chip8 {
    let mut chip = Chip8::new(Config::default());
    chip.memory.ram[PROGRAM_START as usize..][..4].copy_from_slice(&[0x61, 0x02, 0x71, 0x03]);
    chip.memory.vram[0].iter_mut().for_each(|e| *e = true);
    chip.memory.stack.push(PROGRAM_START);
    chip.memory.dt = 0;
    chip.memory.st = 10;
    chip.memory.i = 100;
    chip.memory.v = [0, 1, 2, 3, 4, 5, 31, 59, 0, 1, 2, 3, 4, 5, 30, 60];
    chip.memory.keys = [
        true, false, true, false, true, false, true, false, false, false, false, false, false,
        false, false, false,
    ];
    chip
}

#[test]
fn new_and_default() {
    let chip = Chip8::default();
    assert_eq!(chip.config, Config::default());
    assert_eq!(chip.state, State::Ready);
    assert_eq!(*chip.memory(), Memory::new());
    assert_eq!(Chip8::FREQUENCY_TIMER_UPDATE, 60);
    assert_eq!(Memory::SIZE_RAM, 4096);
    assert_eq!(Memory::SIZE_REGISTERS, 16);
    assert_eq!(Memory::SIZE_KEYS, 16);
    assert_eq!(Memory::SIZE_DISPLAY_WIDTH, 64);
    assert_eq!(Memory::SIZE_DISPLAY_HEIGHT, 32);
    assert_eq!(Memory::INDEX_PROGRAM_START, 0x200);
    assert_eq!(Memory::INDEX_FONT_START, 0x50);
    assert_eq!(Memory::INDEX_FLAG_REGISTER, 0xF);
    let config = Config::default();
    assert!(config.shift_ignores_vy);
    assert!(!config.jump_reads_from_vx);
    assert!(config.add_to_index_stores_overflow);
    assert!(!config.store_load_modifies_i);
}

#[test]
fn advance_instruction_ready() {
    let mut t = target();
    let mut r = t.clone();
    t.advance_instruction().unwrap();
    t.advance_instruction().unwrap();
    r.memory.v[1] = 5;
    r.memory.pc += 4;
    assert_eq!(t, r);
}

#[test]
fn advance_instruction_waiting_key() {
    let mut t = target();
    t.state = State::WaitingForKey { vx: 0x0 };
    let r = t.clone();
    t.advance_instruction().unwrap();
    t.advance_instruction().unwrap();
    assert_eq!(t, r);
}

#[test]
fn advance_instruction_waiting_dt() {
    let mut t = target();
    t.memory.dt = 10;
    let r = t.clone();
    t.advance_instruction().unwrap();
    t.advance_instruction().unwrap();
    assert_eq!(t, r);
}

#[test]
fn advance_instruction_unknown_opcode_moves_past_it() {
    let mut t = Chip8::new(Config::default());
    t.load(&[0xFF, 0xFF]);
    assert_eq!(
        t.advance_instruction(),
        Err(InstructionError::ParseError(ParseError::UnknownOpcode(Opcode::from(0xFFFF))))
    );
    assert_eq!(t.memory.pc, PROGRAM_START + 2);
}

#[test]
fn advance_instruction_execute_error_is_reported() {
    let mut t = Chip8::new(Config::default());
    t.load(&[0x00, 0xEE]);
    assert_eq!(
        t.advance_instruction(),
        Err(InstructionError::ExecuteError(ExecuteError::EmptyStack))
    );
    assert_eq!(t.memory.pc, PROGRAM_START + 2);
}

#[test]
fn advance_instruction_past_end_of_ram_fails() {
    let mut t = Chip8::new(Config::default());
    t.memory.pc = (SIZE_RAM - 1) as u16;
    let r = t.clone();
    assert_eq!(
        t.advance_instruction(),
        Err(InstructionError::ExecuteError(ExecuteError::InvalidAddress(0xFFF)))
    );
    assert_eq!(t, r);
}

#[test]
fn advance_instruction_with_random_runs_a_program() {
    // V1 = 0x0F, V2 = 0x11, V1 -= V2, I = font of V3, wait for a key.
    let rom = [0x61, 0x0F, 0x62, 0x11, 0x81, 0x25, 0x63, 0x0A, 0xF3, 0x29, 0xC4, 0xF0, 0xF5, 0x0A];
    let mut t = Chip8::new(Config::default());
    t.load(&rom);
    for _ in 0..7 {
        t.advance_instruction_with_random(0x5A).unwrap();
    }
    assert_eq!(t.memory.v[1], 254);
    assert_eq!(t.memory.v[0xF], 0);
    assert_eq!(t.memory.i, 0x50 + 10 * 5);
    assert_eq!(t.memory.v[4], 0x50);
    assert_eq!(t.state, State::WaitingForKey { vx: 5 });
    let pc = t.memory.pc;
    t.advance_instruction_with_random(0).unwrap();
    assert_eq!(t.memory.pc, pc);
    t.unpress_key(0xB).unwrap();
    assert_eq!(t.memory.v[5], 0xB);
    assert_eq!(t.state, State::Ready);
}

#[test]
fn advance_timer() {
    let mut t = target();
    t.memory.dt = 10;
    let mut r = t.clone();
    for _ in 0..3 {
        t.advance_timer();
    }
    r.memory.dt = 7;
    r.memory.st -= 3;
    assert_eq!(t, r);
}

#[test]
fn advance_timer_waiting_key() {
    let mut t = target();
    t.memory.dt = 10;
    t.state = State::WaitingForKey { vx: 0x0 };
    let mut r = t.clone();
    for _ in 0..3 {
        t.advance_timer();
    }
    r.memory.dt = 7;
    r.memory.st -= 3;
    assert_eq!(t, r);
}

#[test]
fn advance_timer_three_hundred_times() {
    let mut t = Chip8::default();
    t.memory.dt = 10;
    for _ in 0..300 {
        t.advance_timer();
    }
    assert_eq!(t.memory.dt, 0);
}

#[test]
fn press_key() {
    let mut t = target();
    let mut r = t.clone();
    t.press_key(0xF).unwrap();
    r.memory.keys[0xF] = true;
    assert_eq!(t, r);
}

#[test]
fn unpress_key() {
    let mut t = target();
    let mut r = t.clone();
    t.unpress_key(0x0).unwrap();
    r.memory.keys[0x0] = false;
    assert_eq!(t, r);
}

#[test]
fn unpress_key_unblocks_machine_and_stores_pressed_key() {
    for vx in [1usize, 2] {
        for key in [0x0u8, 0x2] {
            let mut t = target();
            let mut r = t.clone();
            t.state = State::WaitingForKey { vx };
            t.unpress_key(key).unwrap();
            r.memory.keys[key as usize] = false;
            r.memory.v[vx] = key;
            assert_eq!(t, r);
        }
    }
}

#[test]
fn keys_out_of_range_are_refused() {
    let mut t = target();
    let r = t.clone();
    assert_eq!(
        t.press_key(0x10),
        Err(InstructionError::ExecuteError(ExecuteError::InvalidKey(0x10)))
    );
    assert_eq!(
        t.unpress_key(0xFF),
        Err(InstructionError::ExecuteError(ExecuteError::InvalidKey(0xFF)))
    );
    assert_eq!(t, r);
}

#[test]
fn load_keeps_a_pending_key_wait() {
    let mut t = target();
    t.state = State::WaitingForKey { vx: 3 };
    t.load(&[0x12, 0x34]);
    assert_eq!(t.state, State::WaitingForKey { vx: 3 });
    assert_eq!(*t.memory(), {
        let mut m = Memory::new();
        m.load(&[0x12, 0x34]);
        m
    });
}

#[test]
fn load_then_empty_load_equals_new_machine() {
    let mut t = target();
    t.load(&[0x12, 0x34, 0x56]);
    assert_eq!(t.memory.ram[PROGRAM_START as usize..][..3], [0x12, 0x34, 0x56]);
    t.load(&[]);
    assert_eq!(t, Chip8::new(Config::default()));
}

#[test]
fn errors_convert_into_instruction_error() {
    let e: InstructionError = ExecuteError::EmptyStack.into();
    assert_eq!(e, InstructionError::ExecuteError(ExecuteError::EmptyStack));
    let p = ParseError::UnknownOpcode(Opcode::from(0x5001));
    let e: InstructionError = p.into();
    assert_eq!(e, InstructionError::ParseError(p));
}
