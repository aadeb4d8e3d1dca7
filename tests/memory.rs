use chip_8::{
    Memory, FONT, PROGRAM_START, SIZE_DISPLAY_HEIGHT, SIZE_DISPLAY_WIDTH, SIZE_KEYS, SIZE_RAM,
    SIZE_REGISTERS,
};

#[test]
fn new_initializes_ram() {
    let m = Memory::new();
    assert_eq!(m.ram[0..0x50], [0; 0x50]);
    assert_eq!(m.ram[0x50..=0x9F], FONT);
    assert_eq!(m.ram[0xA0..SIZE_RAM], [0; SIZE_RAM - 0xA0]);
}

#[test]
fn new_initializes_display() {
    let m = Memory::new();
    assert_eq!(m.vram, [[false; SIZE_DISPLAY_WIDTH]; SIZE_DISPLAY_HEIGHT]);
}

#[test]
fn new_initializes_stack() {
    let m = Memory::new();
    assert_eq!(m.stack, [0; 0]);
}

#[test]
fn new_initializes_regitsers() {
    let m = Memory::new();
    assert_eq!(m.i, 0);
    assert_eq!(m.v, [0; SIZE_REGISTERS]);
}

#[test]
fn new_initializes_other() {
    let m = Memory::new();
    assert_eq!(m.pc, PROGRAM_START);
    assert_eq!(m.dt, 0);
    assert_eq!(m.st, 0);
}

#[test]
fn clear_resets() {
    let empty = Memory::new();
    let mut modified = Memory::new();
    modified.ram[PROGRAM_START as usize] = 0xFF;
    modified
        .vram
        .iter_mut()
        .for_each(|e| e.iter_mut().for_each(|e| *e = true));
    modified.stack.push(0xFF);
    modified.pc += 2;
    modified.dt = 10;
    modified.st = 20;
    modified.i = 1;
    modified.v.iter_mut().for_each(|e| *e = 5);
    modified.clear();
    assert_eq!(modified, empty);
}

#[test]
fn clear_vram_resets() {
    let empty = Memory::new();
    let mut modified = Memory::new();
    modified
        .vram
        .iter_mut()
        .for_each(|e| e.iter_mut().for_each(|e| *e = true));
    modified.clear_vram();
    assert_eq!(modified, empty);
}

/// A machine with a little of everything set.
fn busy() -> Memory {
    let mut memory = Memory::default();
    memory.ram[PROGRAM_START as usize..][..4].copy_from_slice(&[0x61, 0x02, 0x71, 0x03]);
    memory.vram[0].iter_mut().for_each(|e| *e = true);
    memory.stack.push(PROGRAM_START);
    memory.dt = 60;
    memory.st = 10;
    memory.i = 100;
    memory.v = [0, 1, 2, 3, 4, 5, 31, 59, 0, 1, 2, 3, 4, 5, 30, 60];
    memory.keys = [
        true, false, true, false, true, false, true, false, false, false, false, false, false,
        false, false, false,
    ];
    memory
}

#[test]
fn default_equals_new() {
    assert_eq!(Memory::default(), Memory::new());
    assert_eq!(Memory::new().keys, [false; SIZE_KEYS]);
}

#[test]
fn load_loads() {
    let mut target = Memory::default();
    let mut result = Memory::default();
    target.load(&[10, 20, 30]);
    result.ram[PROGRAM_START as usize..][..3].copy_from_slice(&[10, 20, 30]);
    assert_eq!(target, result);
}

#[test]
fn load_resets_memory() {
    let mut target = busy();
    target.load(&[]);
    assert_eq!(target, Memory::default());
}

#[test]
fn load_fills_all_of_ram_after_program_start() {
    let rom = vec![0xAB; SIZE_RAM - PROGRAM_START as usize];
    let mut target = Memory::new();
    target.load(&rom);
    assert_eq!(target.ram[SIZE_RAM - 1], 0xAB);
    assert_eq!(target.ram[PROGRAM_START as usize], 0xAB);
    assert_eq!(target.ram[PROGRAM_START as usize - 1], 0);
}

#[test]
fn load_then_empty_load_is_fresh() {
    let mut target = busy();
    target.load(&[1, 2, 3, 4, 5]);
    target.load(&[]);
    assert_eq!(target, Memory::new());
}

#[test]
fn increment_pc_increments() {
    let mut target = busy();
    let mut result = busy();
    for _ in 0..3 {
        target.increment_pc();
    }
    result.pc += 2 * 3;
    assert_eq!(target, result);
}

#[test]
fn increment_pc_wraps_at_sixteen_bits() {
    let mut target = Memory::new();
    target.pc = 0xFFFF;
    target.increment_pc();
    assert_eq!(target.pc, 1);
}

#[test]
fn advance_timer_decrements() {
    let mut target = busy();
    let mut result = busy();
    for _ in 0..3 {
        target.advance_timer();
    }
    result.dt -= 3;
    result.st -= 3;
    assert_eq!(target, result);
}

#[test]
fn advance_timer_doesnt_underflow_if_0() {
    let mut target = busy();
    let mut result = busy();
    for _ in 0..100 {
        target.advance_timer();
    }
    result.dt = 0;
    result.st = 0;
    assert_eq!(target, result);
}

#[test]
fn advance_timer_three_hundred_ticks_from_ten() {
    let mut target = Memory::new();
    target.dt = 10;
    for _ in 0..300 {
        target.advance_timer();
        assert!(target.dt <= 10);
    }
    assert_eq!(target.dt, 0);
    assert_eq!(target.st, 0);
}
