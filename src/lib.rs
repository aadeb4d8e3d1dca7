//! A CHIP-8 virtual machine: opcode splitting, instruction decoding and
//! execution over machine state, with a small controller around them.
mod components;
mod config;
mod draw;
mod execute;
mod instruction;
mod memory;
mod opcode;
mod system;

pub use components::{Components, SIZE_DISPLAY};
pub use config::Config;
pub use draw::{draw_collides, draw_spec, drawn_screen, sprite_bit, sprite_covers};
pub use execute::{memory_step, shift_source, ExecuteError};
pub use instruction::{
    decode, decode_spec, is_known_opcode, lemma_decode_deterministic, lemma_decode_unknown,
    Instruction, ParseError,
};
pub use memory::{
    blank_screen, fresh_ram, fresh_view, lemma_ticks_stop_at_zero, loaded_view, next_pc, rom_fits,
    tick, ticked, Memory, MemoryView, FLAG_REGISTER, FONT, FONT_START, PROGRAM_START,
    SIZE_DISPLAY_HEIGHT, SIZE_DISPLAY_WIDTH, SIZE_KEYS, SIZE_RAM, SIZE_REGISTERS,
};
pub use opcode::{low_byte, low_word, nibble_i, nibble_n, nibble_x, nibble_y, word_of, Opcode};
pub use system::{
    execute_spec, fetch_spec, lemma_call_then_return, lemma_reload_empty_is_fresh, load_spec, new_spec,
    outcome, step_spec, Chip8, Chip8View, ExecuteInstruction, InstructionError, State,
};
